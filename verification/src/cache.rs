use vstd::prelude::*;
use crate::asset::{CompanyInfo, CompanyInfoModel};
use crate::errors::AppError;

verus! {

/// What the cache holds for the active symbol: nothing yet, one outstanding
/// fetch, a fetched profile, or the typed error the last fetch ended in.
pub enum CacheSlot {
    Empty,
    InFlight,
    Filled(CompanyInfo),
    Failed(AppError),
}

/// Spec-level image of [`CacheSlot`].
#[verifier::ext_equal]
pub ghost enum SlotModel {
    Empty,
    InFlight,
    Filled(CompanyInfoModel),
    Failed(AppError),
}

impl View for CacheSlot {
    type V = SlotModel;

    open spec fn view(&self) -> SlotModel {
        match self {
            CacheSlot::Empty => SlotModel::Empty,
            CacheSlot::InFlight => SlotModel::InFlight,
            CacheSlot::Filled(info) => SlotModel::Filled(info@),
            CacheSlot::Failed(e) => SlotModel::Failed(*e),
        }
    }
}

/// What one render of the company panel sees: data, a pending fetch, or the
/// stored error.  Never a placeholder profile.
pub enum CacheState {
    Loading,
    Ready(CompanyInfo),
    Error(AppError),
}

/// Spec-level image of [`CacheState`].
#[verifier::ext_equal]
pub ghost enum CacheStateModel {
    Loading,
    Ready(CompanyInfoModel),
    Error(AppError),
}

impl View for CacheState {
    type V = CacheStateModel;

    open spec fn view(&self) -> CacheStateModel {
        match self {
            CacheState::Loading => CacheStateModel::Loading,
            CacheState::Ready(info) => CacheStateModel::Ready(info@),
            CacheState::Error(e) => CacheStateModel::Error(*e),
        }
    }
}

/// Fetch-once-per-symbol orchestration for the company panel.
///
/// The render path only ever reads this state; the fetch itself is carried
/// out elsewhere and reported back through [`CompanyDataCache::on_fetch_success`]
/// or [`CompanyDataCache::on_fetch_failure`].  At most one fetch is
/// outstanding per symbol, and a stored error is retried only on an explicit
/// re-submission, never automatically.
pub struct CompanyDataCache {
    pub symbol: String,
    pub slot: CacheSlot,
}

/// Spec-level image of [`CompanyDataCache`].
#[verifier::ext_equal]
pub ghost struct CacheModel {
    pub symbol: Seq<char>,
    pub slot: SlotModel,
}

impl View for CompanyDataCache {
    type V = CacheModel;

    open spec fn view(&self) -> CacheModel {
        CacheModel { symbol: self.symbol@, slot: self.slot@ }
    }
}

/// One lookup step: the cache after the call, what the caller sees, and
/// whether the caller must dispatch a fetch.  A lookup for a symbol other
/// than the cached one retargets the cache and starts loading; otherwise an
/// empty slot starts loading, and every other slot is served as it stands.
pub open spec fn got_step(c: CacheModel, sym: Seq<char>) -> (CacheModel, CacheStateModel, bool) {
    if sym != c.symbol {
        (CacheModel { symbol: sym, slot: SlotModel::InFlight }, CacheStateModel::Loading, true)
    } else {
        match c.slot {
            SlotModel::Empty => (
                CacheModel { symbol: c.symbol, slot: SlotModel::InFlight },
                CacheStateModel::Loading,
                true,
            ),
            SlotModel::InFlight => (c, CacheStateModel::Loading, false),
            SlotModel::Filled(info) => (c, CacheStateModel::Ready(info), false),
            SlotModel::Failed(e) => (c, CacheStateModel::Error(e), false),
        }
    }
}

/// A completed fetch for `sym`: stored only if the cache still waits for
/// exactly that symbol; a late answer for an old symbol is discarded.
pub open spec fn fetch_done_step(c: CacheModel, sym: Seq<char>, outcome: SlotModel) -> CacheModel {
    if sym == c.symbol && c.slot is InFlight {
        CacheModel { symbol: c.symbol, slot: outcome }
    } else {
        c
    }
}

impl CompanyDataCache {
    /// A cache for `symbol` with nothing fetched yet.
    pub fn new(symbol: String) -> (r: Self)
        ensures
            r@.symbol == symbol@,
            r@.slot is Empty,
    {
        CompanyDataCache { symbol, slot: CacheSlot::Empty }
    }

    /// The render path's only entry point: reports the cached state and
    /// tells the caller whether to dispatch one fetch.  Never blocks; see
    /// [`got_step`] for the exact transition.
    pub fn get_or_trigger(&mut self, symbol: &String) -> (r: (CacheState, bool))
        ensures
            final(self)@ == got_step(old(self)@, symbol@).0,
            r.0@ == got_step(old(self)@, symbol@).1,
            r.1 == got_step(old(self)@, symbol@).2,
    {
        if !(*symbol == self.symbol) {
            self.symbol = symbol.clone();
            self.slot = CacheSlot::InFlight;
            let r = (CacheState::Loading, true);
            assert(self@ =~= got_step(old(self)@, symbol@).0);
            r
        } else {
            match &self.slot {
                CacheSlot::Empty => {
                    self.slot = CacheSlot::InFlight;
                    let r = (CacheState::Loading, true);
                    assert(self@ =~= got_step(old(self)@, symbol@).0);
                    r
                },
                CacheSlot::InFlight => (CacheState::Loading, false),
                CacheSlot::Filled(info) => (CacheState::Ready(info.clone()), false),
                CacheSlot::Failed(e) => (CacheState::Error(*e), false),
            }
        }
    }

    /// Stores a fetched profile, unless the cache has moved on to another
    /// symbol or was never waiting; see [`fetch_done_step`].
    pub fn on_fetch_success(&mut self, symbol: &String, info: CompanyInfo)
        ensures
            final(self)@ == fetch_done_step(old(self)@, symbol@, SlotModel::Filled(info@)),
    {
        if *symbol == self.symbol && matches!(self.slot, CacheSlot::InFlight) {
            self.slot = CacheSlot::Filled(info);
        }
        assert(self@ =~= fetch_done_step(old(self)@, symbol@, SlotModel::Filled(info@)));
    }

    /// Stores the typed error a fetch ended in, under the same guard as
    /// [`CompanyDataCache::on_fetch_success`]; the error is shown, not
    /// replaced by a placeholder, and retried only on re-submission.
    pub fn on_fetch_failure(&mut self, symbol: &String, error: AppError)
        ensures
            final(self)@ == fetch_done_step(old(self)@, symbol@, SlotModel::Failed(error)),
    {
        if *symbol == self.symbol && matches!(self.slot, CacheSlot::InFlight) {
            self.slot = CacheSlot::Failed(error);
        }
        assert(self@ =~= fetch_done_step(old(self)@, symbol@, SlotModel::Failed(error)));
    }

    /// An explicit symbol re-submission: the old profile or error is thrown
    /// away wholesale and the cache retargets.
    pub fn change_symbol(&mut self, symbol: String)
        ensures
            final(self)@.symbol == symbol@,
            final(self)@.slot is Empty,
    {
        self.symbol = symbol;
        self.slot = CacheSlot::Empty;
    }
}

/// Law (single flight): two immediately successive lookups for the same
/// symbol, with no completed fetch in between, dispatch at most one fetch:
/// the second lookup never triggers, and where the first one triggered, the
/// second still reports `Loading`.
pub proof fn lemma_single_flight(c: CacheModel, sym: Seq<char>)
    ensures
        !got_step(got_step(c, sym).0, sym).2,
        got_step(c, sym).2 ==> got_step(got_step(c, sym).0, sym).1 is Loading,
{
}

/// Law (symbol change): a lookup for a symbol other than the cached one, or
/// after an explicit re-submission emptied the slot, never serves a stale
/// profile: it reports `Loading`, leaves no profile behind, and dispatches
/// exactly one fetch.
pub proof fn lemma_fresh_symbol_loads(c: CacheModel, sym: Seq<char>)
    requires
        sym != c.symbol || c.slot is Empty,
    ensures
        got_step(c, sym).0.slot is InFlight,
        got_step(c, sym).1 is Loading,
        got_step(c, sym).2,
{
}

/// Law (late answers): a fetch that completes for a symbol the cache no
/// longer waits for changes nothing.
pub proof fn lemma_stale_answer_discarded(c: CacheModel, sym: Seq<char>, outcome: SlotModel)
    requires
        sym != c.symbol || !(c.slot is InFlight),
    ensures
        fetch_done_step(c, sym, outcome) == c,
{
}

} // verus!

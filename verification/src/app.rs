use vstd::prelude::*;
use vstd::string::StringExecFns;
use crate::asset::{LiveData, LiveDataModel, Stock, StockModel};
use crate::cache::{CacheModel, CacheState, CompanyDataCache, SlotModel, got_step};
use crate::config::{AppConfig, ConfigModel};
use crate::events::Source;
use crate::search_page::SearchEngine;
use crate::signal::{SignalPair, SignalPairModel, pair_step};
use crate::text::{to_upper, upper_seq};
use crate::tracker::{Indicator, LivePriceTracker, TrackerModel, apply_spec};

verus! {

/// Whether key presses are commands or text for the input buffer.
#[derive(Clone, Copy, PartialEq, Eq, Structural, Debug)]
pub enum InputMode {
    Normal,
    Editing,
}

/// Which view the dashboard shows: the normal panels, or the search results.
#[derive(Clone, Copy, PartialEq, Eq, Structural, Debug)]
pub enum State {
    Search,
    Normal,
}

/// What submitting the input buffer means in this deployment: either the
/// buffer becomes the active symbol, or the view switches to the search
/// results for it.  Exactly one policy is configured per deployment.
#[derive(Clone, Copy, PartialEq, Eq, Structural, Debug)]
pub enum SubmitPolicy {
    SetSymbol,
    OpenSearch,
}

/// The help line shown above the input box, decided by the input mode.
pub fn help_text(mode: InputMode) -> (r: &'static str)
    ensures
        mode is Normal ==> r@ == "Search for an asset"@,
        mode is Editing ==> r@ == "Press Esc to stop editing, Enter to record the message"@,
{
    match mode {
        InputMode::Normal => "Search for an asset",
        InputMode::Editing => "Press Esc to stop editing, Enter to record the message",
    }
}

/// The tab strip: a fixed list of titles and the selected position.
pub struct TabsState {
    pub titles: Vec<String>,
    pub index: usize,
}

/// Spec-level image of [`TabsState`].
#[verifier::ext_equal]
pub ghost struct TabsModel {
    pub titles: Seq<Seq<char>>,
    pub index: int,
}

impl View for TabsState {
    type V = TabsModel;

    open spec fn view(&self) -> TabsModel {
        TabsModel { titles: self.titles.deep_view(), index: self.index as int }
    }
}

impl TabsState {
    /// There is always a selected tab.
    pub open spec fn wf(&self) -> bool {
        self.index < self.titles@.len()
    }

    pub fn new(titles: Vec<String>) -> (r: Self)
        requires
            titles@.len() > 0,
        ensures
            r@.titles == titles.deep_view(),
            r@.index == 0,
            r.wf(),
    {
        TabsState { titles, index: 0 }
    }

    /// One tab to the right, wrapping past the last back to the first.
    pub fn next(&mut self)
        requires
            old(self).wf(),
        ensures
            final(self)@.titles == old(self)@.titles,
            final(self)@.index == (old(self)@.index + 1) % (old(self)@.titles.len() as int),
            final(self).wf(),
    {
        let n = self.titles.len();
        self.index = (self.index + 1) % n;
    }

    /// One tab to the left, wrapping past the first back to the last.
    pub fn previous(&mut self)
        requires
            old(self).wf(),
        ensures
            final(self)@.titles == old(self)@.titles,
            final(self)@.index == if old(self)@.index > 0 {
                old(self)@.index - 1
            } else {
                old(self)@.titles.len() - 1
            },
            final(self).wf(),
    {
        if self.index > 0 {
            self.index = self.index - 1;
        } else {
            self.index = self.titles.len() - 1;
        }
    }
}

/// Spec-level image of the search boundary: the index entries and the
/// securities they stand for.
#[verifier::ext_equal]
pub ghost struct EngineModel {
    pub entries: Seq<(u64, Seq<char>)>,
    pub securities: Seq<StockModel>,
}

impl View for SearchEngine {
    type V = EngineModel;

    open spec fn view(&self) -> EngineModel {
        EngineModel {
            entries: crate::search_page::index_entries(&self.engine),
            securities: self.securities.deep_view(),
        }
    }
}

/// The sole mutable application state, owned exclusively by the consumer
/// loop.  Every mutation is a response to one event pulled off the bus; the
/// producers never touch it.
pub struct App {
    pub title: String,
    pub show_chart: bool,
    pub should_quit: bool,
    pub tabs: TabsState,
    pub input_mode: InputMode,
    pub input: String,
    pub symbol: String,
    pub config: AppConfig,
    pub state: State,
    pub securities: Vec<Stock>,
    pub search_engine: Option<SearchEngine>,
    pub submit_policy: SubmitPolicy,
    pub cache: CompanyDataCache,
    pub tracker: LivePriceTracker,
    pub signal: SignalPair,
    pub selection: usize,
    pub clock_closed: bool,
    pub input_closed: bool,
    pub feed_closed: bool,
}

/// Spec-level image of [`App`].
#[verifier::ext_equal]
pub ghost struct AppModel {
    pub title: Seq<char>,
    pub show_chart: bool,
    pub should_quit: bool,
    pub tabs: TabsModel,
    pub input_mode: InputMode,
    pub input: Seq<char>,
    pub symbol: Seq<char>,
    pub config: ConfigModel,
    pub state: State,
    pub securities: Seq<StockModel>,
    pub engine: Option<EngineModel>,
    pub submit_policy: SubmitPolicy,
    pub cache: CacheModel,
    pub tracker: TrackerModel,
    pub signal: SignalPairModel,
    pub selection: int,
    pub clock_closed: bool,
    pub input_closed: bool,
    pub feed_closed: bool,
}

impl View for App {
    type V = AppModel;

    open spec fn view(&self) -> AppModel {
        AppModel {
            title: self.title@,
            show_chart: self.show_chart,
            should_quit: self.should_quit,
            tabs: self.tabs@,
            input_mode: self.input_mode,
            input: self.input@,
            symbol: self.symbol@,
            config: self.config@,
            state: self.state,
            securities: self.securities.deep_view(),
            engine: match self.search_engine {
                Some(ref e) => Some(e@),
                None => None,
            },
            submit_policy: self.submit_policy,
            cache: self.cache@,
            tracker: self.tracker@,
            signal: self.signal@,
            selection: self.selection as int,
            clock_closed: self.clock_closed,
            input_closed: self.input_closed,
            feed_closed: self.feed_closed,
        }
    }
}

/// One key press in character form; see the transition table of the input
/// mode state machine.  `q` quits only in `Normal` mode and is ordinary text
/// in `Editing`; `/` toggles between the modes; any other character is
/// appended to the buffer while editing and ignored otherwise.
pub open spec fn on_key_spec(a: AppModel, c: char) -> AppModel {
    if c == 'q' {
        if a.input_mode is Normal {
            AppModel { should_quit: true, ..a }
        } else {
            AppModel { input: a.input.push(c), ..a }
        }
    } else if c == '/' {
        if a.input_mode is Normal {
            AppModel { input_mode: InputMode::Editing, ..a }
        } else {
            AppModel { input_mode: InputMode::Normal, ..a }
        }
    } else {
        if a.input_mode is Editing {
            AppModel { input: a.input.push(c), ..a }
        } else {
            a
        }
    }
}

/// Backspace: the last buffered character leaves; an empty buffer stays
/// empty.
pub open spec fn on_backspace_spec(a: AppModel) -> AppModel {
    if a.input.len() > 0 {
        AppModel { input: a.input.drop_last(), ..a }
    } else {
        a
    }
}

/// Submitting the buffer, by the configured policy.  Setting the symbol
/// upper-cases the buffer, clears it, returns to `Normal` mode and
/// invalidates the cached profile and the tracker, which both retarget to
/// the new symbol.  Opening the search leaves the buffer for the results
/// view to consume and drops the cached profile.
pub open spec fn on_enter_spec(a: AppModel) -> AppModel {
    match a.submit_policy {
        SubmitPolicy::SetSymbol => {
            let s = upper_seq(a.input);
            AppModel {
                symbol: s,
                input: Seq::empty(),
                input_mode: InputMode::Normal,
                cache: CacheModel { symbol: s, slot: SlotModel::Empty },
                tracker: TrackerModel {
                    symbol: s,
                    last_price: None,
                    indicator: Indicator::Unknown,
                },
                ..a
            }
        },
        SubmitPolicy::OpenSearch => AppModel {
            state: State::Search,
            cache: CacheModel { symbol: a.symbol, slot: SlotModel::Empty },
            ..a
        },
    }
}

/// A producer's goodbye: the feed's closing degrades the live panel to "no
/// live data"; once both the clock and the keyboard are gone, nothing can
/// drive the dashboard and it shuts down.
pub open spec fn on_source_closed_spec(a: AppModel, src: Source) -> AppModel {
    match src {
        Source::Feed => AppModel { feed_closed: true, ..a },
        Source::Clock => AppModel {
            clock_closed: true,
            should_quit: a.should_quit || a.input_closed,
            ..a
        },
        Source::Input => AppModel {
            input_closed: true,
            should_quit: a.should_quit || a.clock_closed,
            ..a
        },
    }
}

impl App {
    /// The coupling every transition preserves: a selected tab exists, the
    /// signal window is well formed, the search index mirrors the securities,
    /// the cache and the tracker follow the active symbol, and the selection
    /// cursor stays inside the list it moves over.
    pub open spec fn wf(&self) -> bool {
        &&& self.tabs.wf()
        &&& self.signal.wf()
        &&& self@.cache.symbol == self@.symbol
        &&& self@.tracker.symbol == self@.symbol
        &&& (self.search_engine matches Some(e) ==> e.wf())
        &&& (self.selection == 0 || self.selection < self.securities@.len())
    }

    /// A fresh dashboard: `Normal` mode and view, an empty buffer, two tabs,
    /// nothing fetched, no trade seen, no demo samples yet.
    pub fn new(title: String, symbol: String, config: AppConfig, submit_policy: SubmitPolicy) -> (r: App)
        ensures
            r@.title == title@,
            r@.show_chart,
            !r@.should_quit,
            r@.tabs.titles == seq!["Tab0"@, "Tab1"@],
            r@.tabs.index == 0,
            r@.input_mode is Normal,
            r@.input == Seq::<char>::empty(),
            r@.symbol == symbol@,
            r@.config == config@,
            r@.state is Normal,
            r@.securities == Seq::<StockModel>::empty(),
            r@.engine is None,
            r@.submit_policy == submit_policy,
            r@.cache == (CacheModel { symbol: symbol@, slot: SlotModel::Empty }),
            r@.tracker == (TrackerModel {
                symbol: symbol@,
                last_price: None,
                indicator: Indicator::Unknown,
            }),
            r@.selection == 0,
            !r@.clock_closed && !r@.input_closed && !r@.feed_closed,
            r.wf(),
    {
        let mut titles: Vec<String> = Vec::new();
        titles.push(String::from_str("Tab0"));
        titles.push(String::from_str("Tab1"));
        assert(titles.deep_view() =~= seq!["Tab0"@, "Tab1"@]);
        let cache = CompanyDataCache::new(symbol.clone());
        let tracker = LivePriceTracker::new(symbol.clone());
        let r = App {
            title,
            show_chart: true,
            should_quit: false,
            tabs: TabsState::new(titles),
            input_mode: InputMode::Normal,
            input: String::new(),
            symbol,
            config,
            state: State::Normal,
            securities: Vec::new(),
            search_engine: None,
            submit_policy,
            cache,
            tracker,
            signal: SignalPair::empty(),
            selection: 0,
            clock_closed: false,
            input_closed: false,
            feed_closed: false,
        };
        assert(r@.securities =~= Seq::<StockModel>::empty());
        assert(r@.cache =~= (CacheModel { symbol: r.symbol@, slot: SlotModel::Empty }));
        assert(r@.tracker =~= (TrackerModel {
            symbol: r.symbol@,
            last_price: None,
            indicator: Indicator::Unknown,
        }));
        r
    }

    /// Moves the selection cursor up in the active list; a no-op when no
    /// list is shown or the cursor is already at the top.
    pub fn on_up(&mut self)
        requires
            old(self).wf(),
        ensures
            final(self)@ == (AppModel { selection: final(self)@.selection, ..old(self)@ }),
            final(self)@.selection == if old(self)@.state is Search && old(self)@.selection > 0 {
                old(self)@.selection - 1
            } else {
                old(self)@.selection
            },
            final(self).wf(),
    {
        if matches!(self.state, State::Search) && self.selection > 0 {
            self.selection = self.selection - 1;
        }
        assert(self@ =~~= (AppModel { selection: self@.selection, ..old(self)@ }));
    }

    /// Moves the selection cursor down in the active list; a no-op when no
    /// list is shown or the cursor is on the last entry.
    pub fn on_down(&mut self)
        requires
            old(self).wf(),
        ensures
            final(self)@ == (AppModel { selection: final(self)@.selection, ..old(self)@ }),
            final(self)@.selection == if old(self)@.state is Search && old(self)@.selection + 1
                < old(self)@.securities.len() {
                old(self)@.selection + 1
            } else {
                old(self)@.selection
            },
            final(self).wf(),
    {
        let n = self.securities.len();
        if matches!(self.state, State::Search) && self.selection + 1 < n {
            self.selection = self.selection + 1;
        }
        assert(self@ =~~= (AppModel { selection: self@.selection, ..old(self)@ }));
    }

    /// The next tab, cyclically.
    pub fn on_right(&mut self)
        requires
            old(self).wf(),
        ensures
            final(self)@ == (AppModel { tabs: final(self)@.tabs, ..old(self)@ }),
            final(self)@.tabs.titles == old(self)@.tabs.titles,
            final(self)@.tabs.index == (old(self)@.tabs.index + 1) % (
            old(self)@.tabs.titles.len() as int),
            final(self).wf(),
    {
        self.tabs.next();
        assert(self@ =~~= (AppModel { tabs: self@.tabs, ..old(self)@ }));
    }

    /// The previous tab, cyclically.
    pub fn on_left(&mut self)
        requires
            old(self).wf(),
        ensures
            final(self)@ == (AppModel { tabs: final(self)@.tabs, ..old(self)@ }),
            final(self)@.tabs.titles == old(self)@.tabs.titles,
            final(self)@.tabs.index == if old(self)@.tabs.index > 0 {
                old(self)@.tabs.index - 1
            } else {
                old(self)@.tabs.titles.len() - 1
            },
            final(self).wf(),
    {
        self.tabs.previous();
        assert(self@ =~~= (AppModel { tabs: self@.tabs, ..old(self)@ }));
    }

    /// One character of keyboard input; see [`on_key_spec`].
    pub fn on_key(&mut self, c: char)
        requires
            old(self).wf(),
        ensures
            final(self)@ == on_key_spec(old(self)@, c),
            final(self).wf(),
    {
        if c == 'q' {
            if matches!(self.input_mode, InputMode::Normal) {
                self.should_quit = true;
            } else {
                self.search_text_input(c);
            }
        } else if c == '/' {
            if matches!(self.input_mode, InputMode::Normal) {
                self.input_mode = InputMode::Editing;
            } else {
                self.input_mode = InputMode::Normal;
            }
        } else {
            if matches!(self.input_mode, InputMode::Editing) {
                self.search_text_input(c);
            }
        }
        assert(self@ =~~= on_key_spec(old(self)@, c));
    }

    /// Appends one character to the input buffer.
    fn search_text_input(&mut self, c: char)
        requires
            old(self).wf(),
        ensures
            final(self)@ == (AppModel { input: old(self)@.input.push(c), ..old(self)@ }),
            final(self).wf(),
    {
        self.input.push(c);
        assert(self@ =~~= (AppModel { input: old(self)@.input.push(c), ..old(self)@ }));
    }

    /// Removes the last buffered character; see [`on_backspace_spec`].
    pub fn on_backspace(&mut self)
        requires
            old(self).wf(),
        ensures
            final(self)@ == on_backspace_spec(old(self)@),
            final(self).wf(),
    {
        self.input.pop();
        assert(self@ =~~= on_backspace_spec(old(self)@));
    }

    /// Submits the input buffer by the configured policy; see
    /// [`on_enter_spec`].
    pub fn on_enter(&mut self)
        requires
            old(self).wf(),
        ensures
            final(self)@ == on_enter_spec(old(self)@),
            final(self).wf(),
    {
        match self.submit_policy {
            SubmitPolicy::SetSymbol => {
                let up = to_upper(self.input.as_str());
                self.cache.change_symbol(up.clone());
                self.tracker.reset(up.clone());
                self.symbol = up;
                self.input = String::new();
                self.input_mode = InputMode::Normal;
            },
            SubmitPolicy::OpenSearch => {
                self.state = State::Search;
                let sym = self.symbol.clone();
                self.cache.change_symbol(sym);
            },
        }
        assert(self@.cache =~= on_enter_spec(old(self)@).cache);
        assert(self@.tracker =~= on_enter_spec(old(self)@).tracker);
        assert(self@ =~~= on_enter_spec(old(self)@));
    }

    /// Leaves `Editing` unconditionally; the buffer is kept.
    pub fn on_escape(&mut self)
        requires
            old(self).wf(),
        ensures
            final(self)@ == (AppModel { input_mode: InputMode::Normal, ..old(self)@ }),
            final(self).wf(),
    {
        self.input_mode = InputMode::Normal;
        assert(self@ =~~= (AppModel { input_mode: InputMode::Normal, ..old(self)@ }));
    }

    /// One clock tick: the demo waveforms advance by the fresh samples and
    /// the chart window scrolls; nothing else moves.
    pub fn on_tick(&mut self, fresh1: &Vec<u64>, fresh2: &Vec<u64>)
        requires
            old(self).wf(),
            fresh1@.len() == old(self)@.signal.sin1.tick_rate,
            fresh2@.len() == old(self)@.signal.sin2.tick_rate,
            old(self)@.signal.window_lo < u64::MAX,
            old(self)@.signal.window_hi < u64::MAX,
        ensures
            final(self)@ == (AppModel {
                signal: pair_step(old(self)@.signal, fresh1@, fresh2@),
                ..old(self)@
            }),
            final(self).wf(),
    {
        self.signal.on_tick(fresh1, fresh2);
        assert(self@ =~~= (AppModel {
            signal: pair_step(old(self)@.signal, fresh1@, fresh2@),
            ..old(self)@
        }));
    }

    /// One decoded trade from the feed: folded into the tracker, which
    /// ignores it unless it is for the active symbol.
    pub fn on_price(&mut self, update: &LiveData)
        requires
            old(self).wf(),
        ensures
            final(self)@ == (AppModel {
                tracker: apply_spec(old(self)@.tracker, update@.symbol, update@.price),
                ..old(self)@
            }),
            final(self).wf(),
    {
        self.tracker.apply(update);
        assert(self@ =~~= (AppModel {
            tracker: apply_spec(old(self)@.tracker, update@.symbol, update@.price),
            ..old(self)@
        }));
    }

    /// A producer's goodbye; see [`on_source_closed_spec`].
    pub fn on_source_closed(&mut self, src: Source)
        requires
            old(self).wf(),
        ensures
            final(self)@ == on_source_closed_spec(old(self)@, src),
            final(self).wf(),
    {
        match src {
            Source::Feed => {
                self.feed_closed = true;
            },
            Source::Clock => {
                self.clock_closed = true;
                if self.input_closed {
                    self.should_quit = true;
                }
            },
            Source::Input => {
                self.input_closed = true;
                if self.clock_closed {
                    self.should_quit = true;
                }
            },
        }
        assert(self@ =~~= on_source_closed_spec(old(self)@, src));
    }

    /// What the company panel shows this frame, and whether the caller must
    /// dispatch one fetch for the active symbol.  Reads cached state only;
    /// see [`got_step`].
    pub fn company_state(&mut self) -> (r: (CacheState, bool))
        requires
            old(self).wf(),
        ensures
            final(self)@ == (AppModel {
                cache: got_step(old(self)@.cache, old(self)@.symbol).0,
                ..old(self)@
            }),
            r.0@ == got_step(old(self)@.cache, old(self)@.symbol).1,
            r.1 == got_step(old(self)@.cache, old(self)@.symbol).2,
            final(self).wf(),
    {
        let r = self.cache.get_or_trigger(&self.symbol);
        assert(self@ =~~= (AppModel {
            cache: got_step(old(self)@.cache, old(self)@.symbol).0,
            ..old(self)@
        }));
        r
    }

    /// Stores the outcome of a fetch; late answers for an old symbol are
    /// discarded, so a slow fetch can never corrupt the panel.
    pub fn on_fetch_success(&mut self, symbol: &String, info: crate::asset::CompanyInfo)
        requires
            old(self).wf(),
        ensures
            final(self)@ == (AppModel {
                cache: crate::cache::fetch_done_step(
                    old(self)@.cache,
                    symbol@,
                    SlotModel::Filled(info@),
                ),
                ..old(self)@
            }),
            final(self).wf(),
    {
        self.cache.on_fetch_success(symbol, info);
        assert(self@ =~~= (AppModel {
            cache: crate::cache::fetch_done_step(
                old(self)@.cache,
                symbol@,
                SlotModel::Filled(info@),
            ),
            ..old(self)@
        }));
    }

    /// Stores the typed error a fetch ended in, under the same guard.
    pub fn on_fetch_failure(&mut self, symbol: &String, error: crate::errors::AppError)
        requires
            old(self).wf(),
        ensures
            final(self)@ == (AppModel {
                cache: crate::cache::fetch_done_step(
                    old(self)@.cache,
                    symbol@,
                    SlotModel::Failed(error),
                ),
                ..old(self)@
            }),
            final(self).wf(),
    {
        self.cache.on_fetch_failure(symbol, error);
        assert(self@ =~~= (AppModel {
            cache: crate::cache::fetch_done_step(
                old(self)@.cache,
                symbol@,
                SlotModel::Failed(error),
            ),
            ..old(self)@
        }));
    }

    /// Installs the fetched security list and builds the search index over
    /// it, each security indexed under its position and description.
    pub fn set_securities(&mut self, stocks: Vec<Stock>)
        requires
            old(self).wf(),
        ensures
            final(self)@ == (AppModel {
                securities: stocks.deep_view(),
                engine: final(self)@.engine,
                selection: 0,
                ..old(self)@
            }),
            final(self)@.engine matches Some(em) && em.securities == stocks.deep_view(),
            final(self).wf(),
    {
        let engine = SearchEngine::new(&stocks);
        proof {
            assert(engine.securities.deep_view() =~= stocks.deep_view());
        }
        self.search_engine = Some(engine);
        self.securities = stocks;
        self.selection = 0;
        assert(self@ =~~= (AppModel {
            securities: self.securities.deep_view(),
            engine: self@.engine,
            selection: 0,
            ..old(self)@
        }));
    }

    /// Installs the demo signal pair the dashboard animates.
    pub fn set_signal(&mut self, signal: SignalPair)
        requires
            old(self).wf(),
            signal.wf(),
        ensures
            final(self)@ == (AppModel { signal: signal@, ..old(self)@ }),
            final(self).wf(),
    {
        self.signal = signal;
        assert(self@ =~~= (AppModel { signal: signal@, ..old(self)@ }));
    }
}

/// Law (mode round trip, symbol submission): from `Normal`, typing `/` then
/// any characters and submitting under the symbol policy leaves the machine
/// back in `Normal` with an empty buffer, and the active symbol is the
/// upper-cased buffer; under the search policy the buffer survives intact
/// and the view is the search results.
pub proof fn lemma_submit_round_trip(a: AppModel, typed: Seq<char>)
    requires
        a.input_mode is Normal,
        a.input.len() == 0,
    ensures
        ({
            let edited = typed.fold_left(on_key_spec(a, '/'), |m: AppModel, c: char| on_key_spec(m, c));
            &&& a.submit_policy is SetSymbol ==> {
                let submitted = on_enter_spec(edited);
                &&& submitted.input_mode is Normal
                &&& submitted.input.len() == 0
                &&& submitted.symbol == upper_seq(edited.input)
            }
            &&& a.submit_policy is OpenSearch ==> {
                let submitted = on_enter_spec(edited);
                &&& submitted.state is Search
                &&& submitted.input == edited.input
            }
        }),
{
    let edited = typed.fold_left(on_key_spec(a, '/'), |m: AppModel, c: char| on_key_spec(m, c));
    lemma_key_steps_keep_policy(on_key_spec(a, '/'), typed);
}

/// Typing characters never changes the configured submit policy.
proof fn lemma_key_steps_keep_policy(a: AppModel, typed: Seq<char>)
    ensures
        typed.fold_left(a, |m: AppModel, c: char| on_key_spec(m, c)).submit_policy
            == a.submit_policy,
    decreases typed.len(),
{
    if typed.len() > 0 {
        lemma_key_steps_keep_policy(a, typed.drop_last());
    }
}

} // verus!

use vstd::prelude::*;
use crate::asset::LiveData;

verus! {

/// The tri-state movement indicator: the direction of the last price change.
#[derive(Clone, Copy, PartialEq, Eq, Structural, Debug)]
pub enum Indicator {
    Up,
    Down,
    Unknown,
}

/// Folds live trades into a "last known price plus direction" value for one
/// symbol.  Trades for any other symbol are ignored: after a symbol change,
/// updates for the old symbol may still sit in the event queue, and they must
/// not corrupt the tracker for the new symbol.  When no trade has ever
/// arrived the indicator is `Unknown` and there is no price, which the
/// rendering layer shows as "no data yet" rather than a made-up zero.
pub struct LivePriceTracker {
    pub symbol: String,
    pub last_price: Option<u64>,
    pub indicator: Indicator,
}

/// Spec-level image of [`LivePriceTracker`].
#[verifier::ext_equal]
pub ghost struct TrackerModel {
    pub symbol: Seq<char>,
    pub last_price: Option<u64>,
    pub indicator: Indicator,
}

impl View for LivePriceTracker {
    type V = TrackerModel;

    open spec fn view(&self) -> TrackerModel {
        TrackerModel {
            symbol: self.symbol@,
            last_price: self.last_price,
            indicator: self.indicator,
        }
    }
}

/// One application of a trade to a tracker: ignored unless the symbol
/// matches; otherwise the price is stored, and the indicator moves to `Up`
/// on a strict rise, to `Down` on a strict fall, and is left alone on an
/// equal price or on the very first sample.
pub open spec fn apply_spec(t: TrackerModel, symbol: Seq<char>, price: u64) -> TrackerModel {
    if symbol != t.symbol {
        t
    } else {
        TrackerModel {
            symbol: t.symbol,
            last_price: Some(price),
            indicator: match t.last_price {
                None => t.indicator,
                Some(p) => if price > p {
                    Indicator::Up
                } else if price < p {
                    Indicator::Down
                } else {
                    t.indicator
                },
            },
        }
    }
}

/// A whole feed session folded into a tracker, oldest trade first.
pub open spec fn apply_all(t: TrackerModel, updates: Seq<(Seq<char>, u64)>) -> TrackerModel
    decreases updates.len(),
{
    if updates.len() == 0 {
        t
    } else {
        apply_spec(apply_all(t, updates.drop_last()), updates.last().0, updates.last().1)
    }
}

impl LivePriceTracker {
    /// A tracker for `symbol` that has seen no trade yet.
    pub fn new(symbol: String) -> (r: Self)
        ensures
            r@.symbol == symbol@,
            r@.last_price is None,
            r@.indicator is Unknown,
    {
        LivePriceTracker { symbol, last_price: None, indicator: Indicator::Unknown }
    }

    /// Folds one trade in; see [`apply_spec`] for the exact transition.
    pub fn apply(&mut self, update: &LiveData)
        ensures
            final(self)@ == apply_spec(old(self)@, update@.symbol, update@.price),
    {
        if update.symbol == self.symbol {
            match self.last_price {
                Some(p) => {
                    if update.price > p {
                        self.indicator = Indicator::Up;
                    } else if update.price < p {
                        self.indicator = Indicator::Down;
                    }
                },
                None => {},
            }
            self.last_price = Some(update.price);
        }
        assert(self@ =~= apply_spec(old(self)@, update@.symbol, update@.price));
    }

    /// Retargets the tracker when the active symbol changes: the old price
    /// and direction belong to the old symbol and are discarded.
    pub fn reset(&mut self, symbol: String)
        ensures
            final(self)@.symbol == symbol@,
            final(self)@.last_price is None,
            final(self)@.indicator is Unknown,
    {
        self.symbol = symbol;
        self.last_price = None;
        self.indicator = Indicator::Unknown;
    }
}

/// Law: a matching trade always becomes the stored price, and when a prior
/// price exists the indicator reports exactly the strict direction of the
/// change, staying as it was on an equal price.
pub proof fn lemma_indicator_direction(t: TrackerModel, symbol: Seq<char>, price: u64, prior: u64)
    requires
        symbol == t.symbol,
        t.last_price == Some(prior),
    ensures
        apply_spec(t, symbol, price).last_price == Some(price),
        price != prior ==> ((apply_spec(t, symbol, price).indicator is Up) <==> price > prior),
        price != prior ==> ((apply_spec(t, symbol, price).indicator is Down) <==> price < prior),
        price == prior ==> apply_spec(t, symbol, price).indicator == t.indicator,
{
}

/// Law: the very first matching trade stores its price but moves no
/// indicator; there is no prior price to compare against.
pub proof fn lemma_first_sample(t: TrackerModel, symbol: Seq<char>, price: u64)
    requires
        symbol == t.symbol,
        t.last_price is None,
    ensures
        apply_spec(t, symbol, price).last_price == Some(price),
        apply_spec(t, symbol, price).indicator == t.indicator,
{
}

/// Law: after any non-empty run of trades for the tracked symbol, the stored
/// price is the most recent trade's price, so the direction laws above speak
/// of the last two applied prices of any session.
pub proof fn lemma_apply_all_latest(t: TrackerModel, updates: Seq<(Seq<char>, u64)>)
    requires
        updates.len() > 0,
        forall|i: int| 0 <= i < updates.len() ==> #[trigger] updates[i].0 == t.symbol,
    ensures
        apply_all(t, updates).last_price == Some(updates.last().1),
        apply_all(t, updates).symbol == t.symbol,
    decreases updates.len(),
{
    if updates.len() == 1 {
        assert(apply_all(t, updates.drop_last()) == t);
    } else {
        lemma_apply_all_latest(t, updates.drop_last());
    }
}

/// Law: after any run of two or more trades for the tracked symbol, the
/// indicator is `Up` exactly when the most recent applied price is strictly
/// greater than the prior applied price, `Down` exactly when strictly less;
/// on equal prices it is whatever the run up to the prior price left it.
pub proof fn lemma_indicator_after_run(t: TrackerModel, updates: Seq<(Seq<char>, u64)>)
    requires
        updates.len() >= 2,
        forall|i: int| 0 <= i < updates.len() ==> #[trigger] updates[i].0 == t.symbol,
    ensures
        ({
            let prior = updates[updates.len() - 2].1;
            let latest = updates.last().1;
            let end = apply_all(t, updates);
            &&& end.last_price == Some(latest)
            &&& latest != prior ==> ((end.indicator is Up) <==> latest > prior)
            &&& latest != prior ==> ((end.indicator is Down) <==> latest < prior)
            &&& latest == prior ==> end.indicator == apply_all(t, updates.drop_last()).indicator
        }),
{
    let before = apply_all(t, updates.drop_last());
    assert(updates.drop_last().last() == updates[updates.len() - 2]);
    lemma_apply_all_latest(t, updates.drop_last());
    lemma_indicator_direction(
        before,
        updates.last().0,
        updates.last().1,
        updates[updates.len() - 2].1,
    );
}

/// Law: a trade for a foreign symbol is a no-op, whatever the tracker holds.
pub proof fn lemma_foreign_symbol_ignored(t: TrackerModel, symbol: Seq<char>, price: u64)
    requires
        symbol != t.symbol,
    ensures
        apply_spec(t, symbol, price) == t,
{
}

} // verus!

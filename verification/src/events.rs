use vstd::prelude::*;
use crate::asset::{LiveData, LiveDataModel};

verus! {

/// A key event, as the input poller reports it.
#[derive(Clone, Copy, PartialEq, Eq, Structural, Debug)]
pub enum Key {
    Char(char),
    Left,
    Right,
    Up,
    Down,
    Backspace,
    Enter,
    Esc,
}

/// The three producers that publish into the bus.
#[derive(Clone, Copy, PartialEq, Eq, Structural, Debug)]
pub enum Source {
    Clock,
    Input,
    Feed,
}

/// The tagged union every producer publishes: the fixed-period clock tick,
/// one key press, one decoded trade, or a producer's terminal goodbye.
pub enum Event {
    Tick,
    KeyPress(Key),
    PriceUpdate(LiveData),
    SourceClosed(Source),
}

/// Spec-level image of [`Event`].
#[verifier::ext_equal]
pub ghost enum EventModel {
    Tick,
    KeyPress(Key),
    PriceUpdate(LiveDataModel),
    SourceClosed(Source),
}

impl View for Event {
    type V = EventModel;

    open spec fn view(&self) -> EventModel {
        match self {
            Event::Tick => EventModel::Tick,
            Event::KeyPress(k) => EventModel::KeyPress(*k),
            Event::PriceUpdate(u) => EventModel::PriceUpdate(u@),
            Event::SourceClosed(s) => EventModel::SourceClosed(*s),
        }
    }
}

impl DeepView for Event {
    type V = EventModel;

    open spec fn deep_view(&self) -> EventModel {
        self.view()
    }
}

/// The symbol of a pending price event, and nothing of any other event.
pub open spec fn price_symbol(e: EventModel) -> Option<Seq<char>> {
    match e {
        EventModel::PriceUpdate(u) => Some(u.symbol),
        _ => None,
    }
}

/// Whether `e` is a pending price event for `sym`.
pub open spec fn is_price_for(e: EventModel, sym: Seq<char>) -> bool {
    price_symbol(e) == Some(sym)
}

/// The position of the first pending price event for `sym`, or `-1`.
pub open spec fn find_price(q: Seq<EventModel>, sym: Seq<char>) -> int
    decreases q.len(),
{
    if q.len() == 0 {
        -1
    } else if is_price_for(q[0], sym) {
        0
    } else {
        let r = find_price(q.skip(1), sym);
        if r == -1 {
            -1
        } else {
            r + 1
        }
    }
}

/// `find_price` finds exactly the first matching position.
pub proof fn lemma_find_price(q: Seq<EventModel>, sym: Seq<char>)
    ensures
        find_price(q, sym) == -1 ==> forall|i: int|
            0 <= i < q.len() ==> !is_price_for(#[trigger] q[i], sym),
        find_price(q, sym) != -1 ==> 0 <= find_price(q, sym) < q.len()
            && is_price_for(q[find_price(q, sym)], sym)
            && forall|i: int| 0 <= i < find_price(q, sym) ==> !is_price_for(#[trigger] q[i], sym),
    decreases q.len(),
{
    if q.len() > 0 && !is_price_for(q[0], sym) {
        lemma_find_price(q.skip(1), sym);
        let r = find_price(q.skip(1), sym);
        if r == -1 {
            assert forall|i: int| 0 <= i < q.len() implies !is_price_for(#[trigger] q[i], sym) by {
                if i > 0 {
                    assert(q.skip(1)[i - 1] == q[i]);
                    assert(!is_price_for(q.skip(1)[i - 1], sym));
                }
            }
        } else {
            assert(q.skip(1)[r] == q[r + 1]);
            assert forall|i: int| 0 <= i < find_price(q, sym) implies !is_price_for(
                #[trigger] q[i],
                sym,
            ) by {
                if i > 0 {
                    assert(q.skip(1)[i - 1] == q[i]);
                    assert(!is_price_for(q.skip(1)[i - 1], sym));
                }
            }
        }
    }
}

/// At most one pending price event per symbol: the queue's coalescing
/// invariant, the backpressure policy of the bus.
pub open spec fn coalesced(q: Seq<EventModel>) -> bool {
    forall|i: int, j: int|
        0 <= i < j < q.len() ==> !(#[trigger] price_symbol(q[i]) is Some && price_symbol(q[i])
            == #[trigger] price_symbol(q[j]))
}

/// One publication: a price event replaces, in place, the pending price
/// event of the same symbol if one exists (drop-oldest, keep-latest per
/// symbol); every other publication appends.
pub open spec fn publish_step(q: Seq<EventModel>, e: EventModel) -> Seq<EventModel> {
    match price_symbol(e) {
        Some(sym) => {
            let i = find_price(q, sym);
            if i == -1 {
                q.push(e)
            } else {
                q.update(i, e)
            }
        },
        None => q.push(e),
    }
}

/// The single multi-producer, single-consumer queue between the event
/// sources and the consumer loop's state owner.
///
/// Arrival order is kept for clock and key events; price events are
/// coalesced per symbol so a bursty feed cannot grow the queue without
/// bound while the consumer catches up.
pub struct EventBus {
    pub events: Vec<Event>,
}

impl View for EventBus {
    type V = Seq<EventModel>;

    open spec fn view(&self) -> Seq<EventModel> {
        self.events.deep_view()
    }
}

impl EventBus {
    /// An empty bus.
    pub fn new() -> (r: Self)
        ensures
            r@ == Seq::<EventModel>::empty(),
            coalesced(r@),
    {
        let r = EventBus { events: Vec::new() };
        assert(r@ =~= Seq::<EventModel>::empty());
        r
    }

    /// How many events are pending.
    pub fn len(&self) -> (r: usize)
        ensures
            r == self@.len(),
    {
        self.events.len()
    }

    /// Publishes one event; see [`publish_step`].  The coalescing invariant
    /// is preserved.
    pub fn publish(&mut self, ev: Event)
        ensures
            final(self)@ == publish_step(old(self)@, ev@),
            coalesced(old(self)@) ==> coalesced(final(self)@),
    {
        proof {
            assert(forall|i: int|
                0 <= i < old(self)@.len() ==> old(self)@[i] == #[trigger] old(self).events@[i]@);
        }
        let ghost q = old(self)@;
        match ev {
            Event::PriceUpdate(u) => {
                proof {
                    lemma_find_price(q, u@.symbol);
                }
                let mut i: usize = 0;
                let mut found: bool = false;
                while i < self.events.len() && !found
                    invariant
                        self == old(self),
                        i <= q.len(),
                        q.len() == self.events@.len(),
                        forall|j: int| 0 <= j < q.len() ==> q[j] == #[trigger] self.events@[j]@,
                        !found ==> forall|j: int|
                            0 <= j < i ==> !is_price_for(#[trigger] q[j], u@.symbol),
                        found ==> i < q.len() && is_price_for(q[i as int], u@.symbol)
                            && forall|j: int|
                            0 <= j < i ==> !is_price_for(#[trigger] q[j], u@.symbol),
                    decreases q.len() - i, (if found { 0int } else { 1int }),
                {
                    proof {
                        assert(q[i as int] == self.events@[i as int]@);
                    }
                    let matches_here = match &self.events[i] {
                        Event::PriceUpdate(d) => d.symbol == u.symbol,
                        _ => false,
                    };
                    if matches_here {
                        found = true;
                    } else {
                        i = i + 1;
                    }
                }
                if found {
                    self.events[i] = Event::PriceUpdate(u);
                    proof {
                        assert(find_price(q, self@[i as int]->PriceUpdate_0.symbol) == i as int);
                        assert(self@ =~= q.update(i as int, ev@));
                    }
                } else {
                    self.events.push(Event::PriceUpdate(u));
                    proof {
                        assert(find_price(q, ev@->PriceUpdate_0.symbol) == -1);
                        assert(self@ =~= q.push(ev@));
                    }
                }
            },
            _ => {
                self.events.push(ev);
                assert(self@ =~= q.push(ev@));
            },
        }
        proof {
            if coalesced(q) {
                lemma_publish_coalesced(q, ev@);
            }
        }
    }

    /// Hands the consumer the oldest pending event, first in, first out.
    pub fn pop(&mut self) -> (r: Option<Event>)
        ensures
            old(self)@.len() == 0 ==> r is None && final(self)@ == old(self)@,
            old(self)@.len() > 0 ==> (r matches Some(e) && e@ == old(self)@[0]) && final(self)@
                == old(self)@.skip(1),
            coalesced(old(self)@) ==> coalesced(final(self)@),
    {
        proof {
            assert(forall|i: int|
                0 <= i < old(self)@.len() ==> old(self)@[i] == #[trigger] old(self).events@[i]@);
        }
        if self.events.len() == 0 {
            assert(final(self)@ =~= old(self)@);
            None
        } else {
            let e = self.events.remove(0);
            proof {
                assert(self@ =~= old(self)@.skip(1));
                if coalesced(old(self)@) {
                    assert forall|i: int, j: int| 0 <= i < j < self@.len() implies !(#[trigger]
                    price_symbol(self@[i]) is Some && price_symbol(self@[i]) == #[trigger]
                    price_symbol(self@[j])) by {
                        assert(self@[i] == old(self)@[i + 1]);
                        assert(self@[j] == old(self)@[j + 1]);
                    }
                }
            }
            Some(e)
        }
    }
}

/// Law (backpressure): publishing preserves the per-symbol coalescing
/// invariant, whatever is published.
pub proof fn lemma_publish_coalesced(q: Seq<EventModel>, e: EventModel)
    requires
        coalesced(q),
    ensures
        coalesced(publish_step(q, e)),
{
    lemma_find_price(q, match price_symbol(e) {
        Some(sym) => sym,
        None => Seq::empty(),
    });
    let p = publish_step(q, e);
    match price_symbol(e) {
        Some(sym) => {
            let idx = find_price(q, sym);
            if idx == -1 {
                assert forall|i: int, j: int| 0 <= i < j < p.len() implies !(#[trigger]
                price_symbol(p[i]) is Some && price_symbol(p[i]) == #[trigger] price_symbol(
                    p[j],
                )) by {
                    if j == q.len() {
                        assert(!is_price_for(q[i], sym));
                    }
                }
            } else {
                assert forall|i: int, j: int| 0 <= i < j < p.len() implies !(#[trigger]
                price_symbol(p[i]) is Some && price_symbol(p[i]) == #[trigger] price_symbol(
                    p[j],
                )) by {
                    assert(price_symbol(q[idx]) == Some(sym));
                }
            }
        },
        None => {
            assert forall|i: int, j: int| 0 <= i < j < p.len() implies !(#[trigger] price_symbol(
                p[i],
            ) is Some && price_symbol(p[i]) == #[trigger] price_symbol(p[j])) by {
                if j == q.len() {
                    assert(price_symbol(p[j]) is None);
                }
            }
        },
    }
}

/// Law (no starvation in the queue): a publication never moves, replaces or
/// drops a pending clock or key event; at worst it appends one event.  A
/// `Tick` at position `i` is therefore handed to the consumer after exactly
/// `i` pops, whatever the feed publishes in between.
pub proof fn lemma_publish_keeps_pending(q: Seq<EventModel>, e: EventModel)
    ensures
        q.len() <= publish_step(q, e).len() <= q.len() + 1,
        forall|i: int|
            0 <= i < q.len() && #[trigger] price_symbol(q[i]) is None ==> publish_step(q, e)[i]
                == q[i],
{
    lemma_find_price(q, match price_symbol(e) {
        Some(sym) => sym,
        None => Seq::empty(),
    });
}

/// Law (keep latest): a price published while one for the same symbol is
/// already pending replaces it in place: the queue does not grow, and the
/// pending slot now holds the newest value.
pub proof fn lemma_price_coalesce_no_growth(q: Seq<EventModel>, u: LiveDataModel)
    requires
        find_price(q, u.symbol) != -1,
    ensures
        publish_step(q, EventModel::PriceUpdate(u)).len() == q.len(),
        publish_step(q, EventModel::PriceUpdate(u))[find_price(q, u.symbol)]
            == EventModel::PriceUpdate(u),
{
    lemma_find_price(q, u.symbol);
}

/// The input poller's deadline: it may block for at most the time remaining
/// until the next scheduled tick, so a storm of key events can never starve
/// the clock, and a quiet keyboard never delays it.
pub fn poll_timeout(tick_rate: u64, elapsed: u64) -> (r: u64)
    ensures
        r <= tick_rate,
        elapsed < tick_rate ==> r == tick_rate - elapsed,
        elapsed >= tick_rate ==> r == 0,
{
    if elapsed < tick_rate {
        tick_rate - elapsed
    } else {
        0
    }
}

} // verus!

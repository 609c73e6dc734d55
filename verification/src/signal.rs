use vstd::prelude::*;

verus! {

/// A fixed-capacity sliding buffer of waveform samples for the demo chart.
///
/// Sample values are opaque to the window: the generator (a scaled sine,
/// computed by the caller that owns the floating-point math) hands `tick_rate`
/// fresh samples per tick, and the window drops its oldest `tick_rate` samples
/// in exchange.  The point count therefore never changes: ring-buffer
/// semantics, not an ever-growing vector.
pub struct SignalWindow {
    pub points: Vec<u64>,
    pub tick_rate: usize,
}

/// Spec-level image of [`SignalWindow`].
#[verifier::ext_equal]
pub ghost struct SignalModel {
    pub points: Seq<u64>,
    pub tick_rate: nat,
}

impl View for SignalWindow {
    type V = SignalModel;

    open spec fn view(&self) -> SignalModel {
        SignalModel { points: self.points@, tick_rate: self.tick_rate as nat }
    }
}

/// One tick of the window: the oldest `k` samples leave, the fresh ones enter.
pub open spec fn signal_step(points: Seq<u64>, fresh: Seq<u64>, k: nat) -> Seq<u64> {
    points.skip(k as int) + fresh
}

/// A whole run of ticks, oldest batch first.
pub open spec fn run_ticks(points: Seq<u64>, batches: Seq<Seq<u64>>, k: nat) -> Seq<u64>
    decreases batches.len(),
{
    if batches.len() == 0 {
        points
    } else {
        signal_step(run_ticks(points, batches.drop_last(), k), batches.last(), k)
    }
}

impl SignalWindow {
    /// The window never drops more samples per tick than it holds.
    pub open spec fn wf(&self) -> bool {
        self.tick_rate <= self.points@.len()
    }

    /// A window primed with its initial samples.
    pub fn new(points: Vec<u64>, tick_rate: usize) -> (r: Self)
        requires
            tick_rate <= points@.len(),
        ensures
            r.points@ == points@,
            r.tick_rate == tick_rate,
            r.wf(),
    {
        SignalWindow { points, tick_rate }
    }

    /// Advances the window by one tick; see [`signal_step`].  The number of
    /// points is invariant.
    pub fn on_tick(&mut self, fresh: &Vec<u64>)
        requires
            old(self).wf(),
            fresh@.len() == old(self).tick_rate,
        ensures
            final(self).points@ == signal_step(old(self).points@, fresh@, old(self).tick_rate as nat),
            final(self).points@.len() == old(self).points@.len(),
            final(self).tick_rate == old(self).tick_rate,
            final(self).wf(),
    {
        let mut kept: Vec<u64> = Vec::new();
        let mut i: usize = self.tick_rate;
        while i < self.points.len()
            invariant
                self == old(self),
                old(self).tick_rate <= i <= self.points@.len(),
                kept@ == self.points@.subrange(old(self).tick_rate as int, i as int),
            decreases self.points@.len() - i,
        {
            let p = self.points[i];
            kept.push(p);
            i = i + 1;
        }
        let mut j: usize = 0;
        while j < fresh.len()
            invariant
                self == old(self),
                j <= fresh@.len(),
                kept@ == self.points@.skip(old(self).tick_rate as int) + fresh@.take(j as int),
            decreases fresh@.len() - j,
        {
            let p = fresh[j];
            kept.push(p);
            j = j + 1;
        }
        assert(fresh@.take(fresh@.len() as int) == fresh@);
        self.points = kept;
    }
}

/// The two demo waveforms of the dashboard plus their shared, scrolling
/// x-axis window: both bounds advance by one unit per tick.
pub struct SignalPair {
    pub sin1: SignalWindow,
    pub sin2: SignalWindow,
    pub window_lo: u64,
    pub window_hi: u64,
}

/// Spec-level image of [`SignalPair`].
#[verifier::ext_equal]
pub ghost struct SignalPairModel {
    pub sin1: SignalModel,
    pub sin2: SignalModel,
    pub window_lo: u64,
    pub window_hi: u64,
}

impl View for SignalPair {
    type V = SignalPairModel;

    open spec fn view(&self) -> SignalPairModel {
        SignalPairModel {
            sin1: self.sin1@,
            sin2: self.sin2@,
            window_lo: self.window_lo,
            window_hi: self.window_hi,
        }
    }
}

/// One tick of the pair: both waveforms advance and the shared x-axis window
/// scrolls one unit to the right.
pub open spec fn pair_step(p: SignalPairModel, fresh1: Seq<u64>, fresh2: Seq<u64>) -> SignalPairModel {
    SignalPairModel {
        sin1: SignalModel {
            points: signal_step(p.sin1.points, fresh1, p.sin1.tick_rate),
            tick_rate: p.sin1.tick_rate,
        },
        sin2: SignalModel {
            points: signal_step(p.sin2.points, fresh2, p.sin2.tick_rate),
            tick_rate: p.sin2.tick_rate,
        },
        window_lo: (p.window_lo + 1) as u64,
        window_hi: (p.window_hi + 1) as u64,
    }
}

impl SignalPair {
    pub open spec fn wf(&self) -> bool {
        self.sin1.wf() && self.sin2.wf()
    }

    /// A pair over a given x-axis range.
    pub fn new(sin1: SignalWindow, sin2: SignalWindow, window_lo: u64, window_hi: u64) -> (r: Self)
        requires
            sin1.wf(),
            sin2.wf(),
        ensures
            r.sin1 == sin1,
            r.sin2 == sin2,
            r.window_lo == window_lo,
            r.window_hi == window_hi,
            r.wf(),
    {
        SignalPair { sin1, sin2, window_lo, window_hi }
    }

    /// An empty pair, for a dashboard built before its demo data.
    pub fn empty() -> (r: Self)
        ensures
            r.sin1.points@.len() == 0,
            r.sin2.points@.len() == 0,
            r.sin1.tick_rate == 0,
            r.sin2.tick_rate == 0,
            r.window_lo == 0,
            r.window_hi == 0,
            r.wf(),
    {
        SignalPair {
            sin1: SignalWindow { points: Vec::new(), tick_rate: 0 },
            sin2: SignalWindow { points: Vec::new(), tick_rate: 0 },
            window_lo: 0,
            window_hi: 0,
        }
    }

    /// One tick: both waveforms advance and the visible window scrolls one
    /// unit to the right.
    pub fn on_tick(&mut self, fresh1: &Vec<u64>, fresh2: &Vec<u64>)
        requires
            old(self).wf(),
            fresh1@.len() == old(self).sin1.tick_rate,
            fresh2@.len() == old(self).sin2.tick_rate,
            old(self).window_hi < u64::MAX,
            old(self).window_lo < u64::MAX,
        ensures
            final(self).sin1.points@ == signal_step(
                old(self).sin1.points@,
                fresh1@,
                old(self).sin1.tick_rate as nat,
            ),
            final(self).sin2.points@ == signal_step(
                old(self).sin2.points@,
                fresh2@,
                old(self).sin2.tick_rate as nat,
            ),
            final(self).sin1.points@.len() == old(self).sin1.points@.len(),
            final(self).sin2.points@.len() == old(self).sin2.points@.len(),
            final(self).sin1.tick_rate == old(self).sin1.tick_rate,
            final(self).sin2.tick_rate == old(self).sin2.tick_rate,
            final(self).window_lo == old(self).window_lo + 1,
            final(self).window_hi == old(self).window_hi + 1,
            final(self).wf(),
            final(self)@ == pair_step(old(self)@, fresh1@, fresh2@),
    {
        self.sin1.on_tick(fresh1);
        self.sin2.on_tick(fresh2);
        self.window_lo = self.window_lo + 1;
        self.window_hi = self.window_hi + 1;
        assert(self@ =~~= pair_step(old(self)@, fresh1@, fresh2@));
    }
}

/// Law (fixed capacity): for any number of ticks, each handing the window
/// exactly `k` fresh samples, a window that starts with at least `k` points
/// keeps exactly its initial number of points.
pub proof fn lemma_window_length_invariant(points: Seq<u64>, batches: Seq<Seq<u64>>, k: nat)
    requires
        k <= points.len(),
        forall|i: int| 0 <= i < batches.len() ==> #[trigger] batches[i].len() == k,
    ensures
        run_ticks(points, batches, k).len() == points.len(),
    decreases batches.len(),
{
    if batches.len() > 0 {
        lemma_window_length_invariant(points, batches.drop_last(), k);
    }
}

} // verus!

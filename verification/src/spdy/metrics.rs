//! Load metrics of one connection.
use std::time::Instant;
use vstd::prelude::*;

verus! {

/// The estimate before the first measurement: one millisecond, so that an
/// unmeasured connection is not free of cost.
pub const RTT_SEED_NS: u64 = 1_000_000;

/// Per-connection load metrics for power-of-two-choices routing. Lower cost
/// is preferred.
pub struct HandleMetrics {
    /// Exponentially weighted round-trip estimate in nanoseconds.
    pub rtt_ns: u64,
}

/// The estimate after a sample (Peak-EWMA): a new peak is adopted at once;
/// otherwise the estimate moves a tenth of the way towards the sample.
pub open spec fn next_rtt(prev: u64, elapsed_ns: u64) -> int {
    if elapsed_ns > prev {
        elapsed_ns as int
    } else {
        (prev / 10) * 9 + elapsed_ns / 10
    }
}

/// The product, capped at the largest 64-bit number.
pub open spec fn capped_product(a: nat, b: nat) -> nat {
    if a * b <= u64::MAX {
        a * b
    } else {
        u64::MAX as nat
    }
}

/// The cost of a connection with `inflight` open streams.
pub open spec fn rtt_cost(rtt_ns: u64, inflight: usize) -> nat {
    capped_product(rtt_ns as nat, (inflight + 1) as nat)
}

/// A span of time as nanoseconds, capped at the largest 64-bit number.
pub open spec fn capped_nanos(nanos: nat) -> nat {
    if nanos <= u64::MAX {
        nanos
    } else {
        u64::MAX as nat
    }
}

impl HandleMetrics {
    pub fn new() -> (r: HandleMetrics)
        ensures
            r.rtt_ns == RTT_SEED_NS,
    {
        HandleMetrics { rtt_ns: RTT_SEED_NS }
    }

    /// Begins a measurement. One that is dropped without
    /// [`RttSample::complete`] leaves no trace, as suits early returns.
    pub fn start_sample(&self) -> RttSample {
        RttSample { start: Instant::now() }
    }

    /// Updates the estimate with a sample.
    pub fn record_rtt(&mut self, elapsed_ns: u64)
        ensures
            final(self).rtt_ns == next_rtt(old(self).rtt_ns, elapsed_ns),
    {
        let prev = self.rtt_ns;
        self.rtt_ns =
        if elapsed_ns > prev {
            elapsed_ns
        } else {
            (prev / 10) * 9 + elapsed_ns / 10
        };
    }

    /// Cost metric: estimate times open streams plus one.
    pub fn cost(&self, inflight: usize) -> (r: u64)
        ensures
            r == rtt_cost(self.rtt_ns, inflight),
    {
        let rtt: u128 = self.rtt_ns as u128;
        let load: u128 = inflight as u128 + 1;
        assert(rtt * load <= u64::MAX * 0x1_0000_0000_0000_0000) by (nonlinear_arith)
            requires
                rtt <= u64::MAX,
                load <= 0x1_0000_0000_0000_0000,
        ;
        let product: u128 = rtt * load;
        if product <= u64::MAX as u128 {
            product as u64
        } else {
            u64::MAX
        }
    }
}

/// A measurement that was begun.
pub struct RttSample {
    pub start: Instant,
}

impl RttSample {
    /// Records the time since the measurement was begun. Which sample that
    /// is, the clock decides; see [`complete_with`].
    pub fn complete(self, metrics: &mut HandleMetrics)
        ensures
            exists|nanos: nat|
                final(metrics).rtt_ns == next_rtt(
                    old(metrics).rtt_ns,
                    #[trigger] capped_nanos(nanos) as u64,
                ),
    {
        complete_with(self.nanos(), metrics)
    }

    /// The nanoseconds since the measurement was begun.
    pub fn nanos(&self) -> u128 {
        self.start.elapsed().as_nanos()
    }
}

/// Records a sample of `elapsed_nanos`.
pub fn complete_with(elapsed_nanos: u128, metrics: &mut HandleMetrics)
    ensures
        final(metrics).rtt_ns == next_rtt(
            old(metrics).rtt_ns,
            capped_nanos(elapsed_nanos as nat) as u64,
        ),
{
    let capped: u64 = if elapsed_nanos <= u64::MAX as u128 {
        elapsed_nanos as u64
    } else {
        u64::MAX
    };
    metrics.record_rtt(capped);
}

/// The estimate after a sequence of samples.
pub open spec fn rtt_after(seed: u64, samples: Seq<u64>) -> u64
    decreases samples.len(),
{
    if samples.len() == 0 {
        seed
    } else {
        next_rtt(rtt_after(seed, samples.drop_last()), samples.last()) as u64
    }
}

/// The estimate adopts every new peak at once, and never exceeds the seed and
/// all samples.
pub proof fn law_estimate_follows_peaks(seed: u64, samples: Seq<u64>, bound: u64)
    requires
        seed <= bound,
        forall|i: int| 0 <= i < samples.len() ==> samples[i] <= bound,
    ensures
        rtt_after(seed, samples) <= bound,
        samples.len() > 0 && samples.last() > rtt_after(seed, samples.drop_last()) ==> rtt_after(
            seed,
            samples,
        ) == samples.last(),
    decreases samples.len(),
{
    if samples.len() > 0 {
        law_estimate_follows_peaks(seed, samples.drop_last(), bound);
    }
}

/// With equal estimates the connection with fewer open streams never costs
/// more.
pub proof fn law_cost_grows_with_load(rtt_ns: u64, fewer: usize, more: usize)
    requires
        fewer <= more,
    ensures
        rtt_cost(rtt_ns, fewer) <= rtt_cost(rtt_ns, more),
{
    assert(rtt_ns * (fewer + 1) <= rtt_ns * (more + 1)) by (nonlinear_arith)
        requires
            fewer <= more,
            rtt_ns >= 0,
    ;
}

/// A sample below the estimate moves it a tenth of the way towards the
/// sample, up to what is lost by rounding down, and never above it; a sample
/// above the estimate replaces it. So the estimate always lies between the
/// two, and a steady sample is approached and kept.
pub proof fn law_estimate_moves_a_tenth(prev: u64, elapsed_ns: u64)
    ensures
        elapsed_ns > prev ==> next_rtt(prev, elapsed_ns) == elapsed_ns,
        elapsed_ns <= prev ==> {
            &&& 10 * next_rtt(prev, elapsed_ns) <= 9 * prev + elapsed_ns
            &&& 9 * prev + elapsed_ns - 90 <= 10 * next_rtt(prev, elapsed_ns)
            &&& next_rtt(prev, elapsed_ns) <= prev
        },
        0 <= next_rtt(prev, elapsed_ns) <= u64::MAX,
{
}

/// A slower sample never gives a smaller estimate.
pub proof fn law_estimate_grows_with_the_sample(prev: u64, faster: u64, slower: u64)
    requires
        faster <= slower,
    ensures
        next_rtt(prev, faster) <= next_rtt(prev, slower),
{
}

/// An unused connection costs its round-trip estimate, and every open stream
/// adds as much again, until the largest 64-bit number is reached; beyond
/// that the cost stays there.
pub proof fn law_each_stream_adds_the_estimate(rtt_ns: u64, inflight: usize)
    requires
        inflight < usize::MAX,
    ensures
        rtt_cost(rtt_ns, 0) == rtt_ns,
        rtt_cost(rtt_ns, (inflight + 1) as usize) == (if rtt_cost(rtt_ns, inflight) + rtt_ns
            <= u64::MAX {
            rtt_cost(rtt_ns, inflight) + rtt_ns
        } else {
            u64::MAX as int
        }),
        rtt_cost(rtt_ns, inflight) <= u64::MAX,
{
    assert(rtt_ns as nat * 1 == rtt_ns) by (nonlinear_arith);
    assert(rtt_ns as nat * (inflight + 2) as nat == rtt_ns as nat * (inflight + 1) as nat + rtt_ns)
        by (nonlinear_arith);
}

/// A slower connection with the same load never costs less.
pub proof fn law_cost_grows_with_the_estimate(faster: u64, slower: u64, inflight: usize)
    requires
        faster <= slower,
    ensures
        rtt_cost(faster, inflight) <= rtt_cost(slower, inflight),
{
    assert(faster as nat * (inflight + 1) as nat <= slower as nat * (inflight + 1) as nat)
        by (nonlinear_arith)
        requires
            faster <= slower,
    ;
}

/// A span that a 64-bit number can hold is recorded exactly; a longer one
/// counts as the longest.
pub proof fn law_long_spans_are_capped(nanos: nat, longer: nat)
    requires
        nanos <= longer,
    ensures
        capped_nanos(nanos) <= capped_nanos(longer) <= u64::MAX,
        longer <= u64::MAX ==> capped_nanos(longer) == longer,
        nanos >= u64::MAX ==> capped_nanos(nanos) == u64::MAX,
{
}

} // verus!

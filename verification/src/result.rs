//! Aggregate numeric summaries of one benchmark run.

use vstd::prelude::*;

verus! {

/// The mean of `total` over `iters` samples, rounded towards zero.
/// An empty measurement has mean zero.
pub open spec fn spec_mean(total: u64, iters: u64) -> u64 {
    if iters == 0 {
        0u64
    } else {
        (total / iters) as u64
    }
}

/// Summary statistics of one measurement phase: the accumulated elapsed time
/// in nanoseconds, the number of iterations it covers, and the derived mean
/// per-iteration cost. Immutable once computed.
#[derive(Clone, Copy, Debug)]
pub struct Statistics {
    /// Accumulated measured time over all iterations, in nanoseconds.
    pub total_ns: u64,
    /// How many iterations the total covers.
    pub iterations: u64,
    /// Mean measured time of one iteration, in nanoseconds.
    pub mean_ns: u64,
}

impl Statistics {
    /// The mean field agrees with the other two.
    pub open spec fn wf(self) -> bool {
        self.mean_ns == spec_mean(self.total_ns, self.iterations)
    }

    /// Derive statistics from an accumulated elapsed time and the iteration
    /// count it covers.
    pub fn from_measurement(total_ns: u64, iterations: u64) -> (s: Statistics)
        ensures
            s.total_ns == total_ns,
            s.iterations == iterations,
            s.wf(),
    {
        let mean_ns: u64 = if iterations == 0 {
            0
        } else {
            total_ns / iterations
        };
        Statistics { total_ns, iterations, mean_ns }
    }
}

/// A bulk measurement of `n` iterations that each take a fixed duration `d`
/// reports exactly `d` as its per-iteration mean: the mean of a bulk span is
/// the per-call cost.
pub proof fn lemma_bulk_fixed_cost_mean(n: u64, d: u64)
    requires
        n > 0,
        n * d <= u64::MAX,
    ensures
        spec_mean((n * d) as u64, n) == d,
{
    assert((n * d) as u64 == n * d);
    assert((n as int) * (d as int) / (n as int) == d as int) by (nonlinear_arith)
        requires
            n > 0,
    ;
}

/// The full record of one benchmark run: the identity of what ran, the
/// instruction-set variant it ran under, the derived statistics, and a
/// wall-clock timestamp of when the run occurred.
#[derive(Clone, Debug)]
pub struct BenchmarkResult {
    /// The composite `category/name` benchmark identifier.
    pub id: String,
    /// The benchmark category.
    pub category: String,
    /// The benchmark name within its category.
    pub name: String,
    /// Human-readable tag of the instruction-set tier the run used.
    pub simd_variant: String,
    /// The measurement statistics.
    pub statistics: Statistics,
    /// Wall-clock time of the run, in milliseconds since the Unix epoch.
    pub timestamp_ms: u64,
}

} // verus!

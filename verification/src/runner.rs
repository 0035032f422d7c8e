//! The timing runner: warmup, calibration, measurement, statistics.
//!
//! A benchmark run proceeds in strict order: stale instrumentation is
//! cleared, the warmup iterations run (instrumented as one aggregate span),
//! a calibration hook runs exactly once, and then the measurement phase
//! runs in one of two modes. *Bulk* mode times the whole iteration loop as
//! a single span. *Per-iteration* mode times every call individually and
//! inserts an untimed frame-pacing wait between consecutive iterations;
//! the waits are excluded from the reported total. Per-iteration marks are
//! suppressed above a flood-prevention threshold so that very fast
//! benchmarks with huge iteration counts do not drown the diagnostic
//! timeline.

use vstd::prelude::*;
use vstd::string::StringExecFns;

use crate::result::{BenchmarkResult, Statistics};
use crate::timer::{NativeTimer, Timer};

verus! {

/// Per-iteration marks are only emitted when the total iteration count
/// stays at or below this threshold.
pub const MAX_MARKED_ITERS: u64 = 10_000;

/// The operation under measurement. The model counts how often it has
/// run, so the runner's contracts can promise that the workload really
/// runs warmup-plus-iterations times; what one iteration does is the
/// backend's business and stays unmodeled.
pub trait Workload {
    /// Model: how many iterations have run. The default model counts
    /// nothing and satisfies no contract: an implementor whose runs the
    /// runner's contracts are to count overrides it, as
    /// [`CountingWorkload`] does; an unverified backend implementor may
    /// leave it, conceding the count clauses.
    open spec fn calls(&self) -> nat {
        0
    }

    /// Run one iteration of the benchmarked operation.
    fn iterate(&mut self)
        ensures
            final(self).calls() == old(self).calls() + 1,
    ;
}

/// A workload that only counts its iterations: the do-nothing operation,
/// for exercising the runner without a rendering backend.
pub struct CountingWorkload {
    count: u64,
    calls_g: Ghost<nat>,
}

impl CountingWorkload {
    #[verifier::type_invariant]
    spec fn type_inv(self) -> bool {
        crate::timer::counter_tracks(self.count, self.calls_g@)
    }

    /// A workload that has not run yet.
    pub fn new() -> (w: CountingWorkload)
        ensures
            w.calls() == 0,
    {
        CountingWorkload { count: 0, calls_g: Ghost(0) }
    }

    /// How many iterations have run, for inspection. Saturates at
    /// `u64::MAX`.
    pub fn count(&self) -> (n: u64)
        ensures
            crate::timer::counter_tracks(n, self.calls()),
    {
        proof {
            use_type_invariant(self);
        }
        self.count
    }
}

impl Workload for CountingWorkload {
    closed spec fn calls(&self) -> nat {
        self.calls_g@
    }

    fn iterate(&mut self) {
        proof {
            use_type_invariant(&*self);
        }
        let new_count = if self.count < u64::MAX {
            self.count + 1
        } else {
            u64::MAX
        };
        *self = CountingWorkload { count: new_count, calls_g: Ghost(self.calls_g@ + 1) };
    }
}

/// A one-time adjustment hook, invoked exactly once between warmup and the
/// first measured iteration. The model counts its firings, so the runner
/// can promise the hook fires exactly once per run.
pub trait CalibrationHook {
    /// Model: how many times the hook has fired. The default model counts
    /// nothing and satisfies no contract; see [`Workload::calls`].
    open spec fn fired(&self) -> nat {
        0
    }

    /// Perform the one-time, unmeasured adjustment.
    fn on_calibrated(&mut self)
        ensures
            final(self).fired() == old(self).fired() + 1,
    ;
}

/// A calibration hook that does nothing but note that it fired.
pub struct NoopCalibration {
    fired_g: Ghost<nat>,
}

impl NoopCalibration {
    /// A hook that has not fired yet.
    pub fn new() -> (h: NoopCalibration)
        ensures
            h.fired() == 0,
    {
        NoopCalibration { fired_g: Ghost(0) }
    }
}

impl CalibrationHook for NoopCalibration {
    closed spec fn fired(&self) -> nat {
        self.fired_g@
    }

    fn on_calibrated(&mut self) {
        proof {
            self.fired_g@ = self.fired_g@ + 1;
        }
    }
}

/// The decimal digit characters of `n`, most significant first.
pub open spec fn spec_dec_digits(n: nat) -> Seq<char>
    decreases n,
{
    if n < 10 {
        seq![spec_digit_char(n)]
    } else {
        spec_dec_digits(n / 10).push(spec_digit_char(n % 10))
    }
}

/// The character for one decimal digit.
pub open spec fn spec_digit_char(d: nat) -> char {
    if d == 0 {
        '0'
    } else if d == 1 {
        '1'
    } else if d == 2 {
        '2'
    } else if d == 3 {
        '3'
    } else if d == 4 {
        '4'
    } else if d == 5 {
        '5'
    } else if d == 6 {
        '6'
    } else if d == 7 {
        '7'
    } else if d == 8 {
        '8'
    } else {
        '9'
    }
}

fn digit_str(d: u64) -> (s: &'static str)
    requires
        d < 10,
    ensures
        s@ =~= seq![spec_digit_char(d as nat)],
{
    proof {
        reveal_strlit("0");
        reveal_strlit("1");
        reveal_strlit("2");
        reveal_strlit("3");
        reveal_strlit("4");
        reveal_strlit("5");
        reveal_strlit("6");
        reveal_strlit("7");
        reveal_strlit("8");
        reveal_strlit("9");
    }
    if d == 0 {
        "0"
    } else if d == 1 {
        "1"
    } else if d == 2 {
        "2"
    } else if d == 3 {
        "3"
    } else if d == 4 {
        "4"
    } else if d == 5 {
        "5"
    } else if d == 6 {
        "6"
    } else if d == 7 {
        "7"
    } else if d == 8 {
        "8"
    } else {
        "9"
    }
}

/// Format `n` in decimal.
pub fn u64_to_dec_string(n: u64) -> (s: String)
    ensures
        s@ == spec_dec_digits(n as nat),
    decreases n,
{
    if n < 10 {
        let s = digit_str(n);
        s.to_owned()
    } else {
        let mut s = u64_to_dec_string(n / 10);
        s.append(digit_str(n % 10));
        s
    }
}

/// Build `prefix + id + suffix`, the shape of the runner's mark names.
fn mark_name(prefix: &str, id: &str, suffix: &str) -> (s: String)
    ensures
        s@ == prefix@ + id@ + suffix@,
{
    let mut s = prefix.to_owned();
    s.append(id);
    s.append(suffix);
    s
}

/// Build an iteration mark name: `prefix + id + infix + i + suffix`.
fn iter_mark_name(prefix: &str, id: &str, infix: &str, i: u64, suffix: &str) -> (s: String)
    ensures
        s@ == prefix@ + id@ + infix@ + spec_dec_digits(i as nat) + suffix@,
{
    let mut s = prefix.to_owned();
    s.append(id);
    s.append(infix);
    let digits = u64_to_dec_string(i);
    s.append(digits.as_str());
    s.append(suffix);
    s
}

/// Iteration budgets of one benchmark run: how many warmup iterations
/// precede measurement, and how many iterations are measured.
#[derive(Clone, Copy, Debug)]
pub struct BenchRunner {
    /// Number of untimed warmup iterations.
    pub warmup: u64,
    /// Number of measured iterations.
    pub iterations: u64,
}

impl BenchRunner {
    /// A runner with the given warmup and measurement budgets.
    pub fn new(warmup: u64, iterations: u64) -> (r: BenchRunner)
        ensures
            r.warmup == warmup,
            r.iterations == iterations,
    {
        BenchRunner { warmup, iterations }
    }

    /// Run the warmup iterations, untimed: the workload runs exactly
    /// `self.warmup` times and no timer is touched.
    pub fn warmup<W: Workload>(&self, f: &mut W)
        ensures
            final(f).calls() == old(f).calls() + self.warmup,
    {
        let ghost c0 = f.calls();
        let mut i: u64 = 0;
        while i < self.warmup
            invariant
                i <= self.warmup,
                f.calls() == c0 + i,
            decreases self.warmup - i,
        {
            f.iterate();
            i = i + 1;
        }
    }

    /// Bulk measurement: time the entire loop of `total_iters` calls as one
    /// span and derive the statistics from it.
    ///
    /// The reported total is exactly the clock advance over the call minus
    /// the advance the timer observed outside the measured window; no
    /// instrumentation events are recorded and no frame waits occur.
    pub fn measure<T: Timer, W: Workload>(timer: &mut T, f: &mut W, total_iters: u64) -> (s:
        Statistics)
        ensures
            s.iterations == total_iters,
            s.wf(),
            final(f).calls() == old(f).calls() + total_iters,
            final(timer).time() >= old(timer).time(),
            final(timer).idle() >= old(timer).idle(),
            s.total_ns == (final(timer).time() - old(timer).time()) - (final(timer).idle() - old(timer).idle()),
            final(timer).waited() == old(timer).waited(),
            final(timer).marks() == old(timer).marks(),
            final(timer).measures() == old(timer).measures(),
            final(timer).frame_waits() == old(timer).frame_waits(),
    {
        let ghost c0 = f.calls();
        let start = timer.now();
        let mut i: u64 = 0;
        while i < total_iters
            invariant
                i <= total_iters,
                f.calls() == c0 + i,
            decreases total_iters - i,
        {
            f.iterate();
            i = i + 1;
        }
        let elapsed = timer.elapsed_ns(start);
        Statistics::from_measurement(elapsed, total_iters)
    }

    /// Per-iteration measurement with an untimed frame wait between
    /// consecutive iterations.
    ///
    /// Each call is timed individually and the durations accumulate into
    /// the reported total; clock advance during the pacing waits and at the
    /// window-opening observations is excluded. Start and end marks plus a
    /// measure span are recorded per iteration, but only when the iteration
    /// count stays at or below [`MAX_MARKED_ITERS`]; above it none are
    /// recorded. Exactly one frame wait runs between consecutive
    /// iterations: never before the first, never after the last.
    pub fn measure_per_iteration_with_frame_wait<T: Timer, W: Workload>(
        timer: &mut T,
        bench_id: &str,
        f: &mut W,
        total_iters: u64,
    ) -> (s: Statistics)
        ensures
            s.iterations == total_iters,
            s.wf(),
            final(f).calls() == old(f).calls() + total_iters,
            final(timer).time() >= old(timer).time(),
            final(timer).idle() >= old(timer).idle(),
            final(timer).waited() >= old(timer).waited(),
            s.total_ns == (final(timer).time() - old(timer).time()) - (final(timer).idle() - old(timer).idle()) - (final(timer).waited() - old(timer).waited()),
            final(timer).frame_waits() == old(timer).frame_waits() + (if total_iters > 0 {
                (total_iters - 1) as nat
            } else {
                0nat
            }),
            total_iters <= MAX_MARKED_ITERS ==> final(timer).marks() == old(timer).marks() + 2
                * total_iters && final(timer).measures() == old(timer).measures() + total_iters,
            total_iters > MAX_MARKED_ITERS ==> final(timer).marks() == old(timer).marks() && final(timer).measures() == old(timer).measures(),
    {
        let ghost c0 = f.calls();
        let ghost t0 = timer.time();
        let ghost i0 = timer.idle();
        let ghost w0 = timer.waited();
        let ghost m0 = timer.marks();
        let ghost ms0 = timer.measures();
        let ghost fw0 = timer.frame_waits();
        let emit_marks = total_iters <= MAX_MARKED_ITERS;
        let mut total_ns: u64 = 0;
        let mut i: u64 = 0;
        while i < total_iters
            invariant
                i <= total_iters,
                f.calls() == c0 + i,
                emit_marks == (total_iters <= MAX_MARKED_ITERS),
                timer.time() >= t0,
                timer.idle() >= i0,
                timer.waited() >= w0,
                total_ns == (timer.time() - t0) - (timer.idle() - i0) - (timer.waited() - w0),
                timer.frame_waits() == fw0 + (if i == total_iters && total_iters > 0 {
                    (i - 1) as nat
                } else {
                    i as nat
                }),
                emit_marks ==> timer.marks() == m0 + 2 * i && timer.measures() == ms0 + i,
                !emit_marks ==> timer.marks() == m0 && timer.measures() == ms0,
            decreases total_iters - i,
        {
            if emit_marks {
                let start_name = iter_mark_name("bench:", bench_id, ":iter:", i, "");
                timer.mark(start_name.as_str());
            }
            let iter_start = timer.now();
            f.iterate();
            let d = timer.elapsed_ns(iter_start);
            proof {
                assert(total_ns + d <= timer.time() - t0);
            }
            total_ns = total_ns + d;
            if emit_marks {
                let start_name = iter_mark_name("bench:", bench_id, ":iter:", i, "");
                let end_name = iter_mark_name("bench:", bench_id, ":iter:", i, ":end");
                let span_name = iter_mark_name("", bench_id, " iter ", i, "");
                timer.mark(end_name.as_str());
                timer.measure_span(span_name.as_str(), start_name.as_str(), end_name.as_str());
            }
            if i + 1 < total_iters {
                timer.wait_one_frame();
            }
            i = i + 1;
        }
        Statistics::from_measurement(total_ns, total_iters)
    }

    /// Run one benchmark with the given timer: clear stale instrumentation,
    /// warm up (as one instrumented span), fire the calibration hook once,
    /// measure in the chosen mode (one more instrumented span), and record
    /// the result with a wall-clock timestamp.
    ///
    /// Besides the per-iteration events, exactly four marks and two measure
    /// spans are recorded: one mark pair and span each for the warmup phase
    /// and the measurement phase.
    pub fn run_with_timer<T: Timer, W: Workload, C: CalibrationHook>(
        &self,
        timer: &mut T,
        id: &str,
        category: &str,
        name: &str,
        simd_variant: &str,
        f: &mut W,
        on_calibrated: &mut C,
        per_iteration: bool,
    ) -> (r: BenchmarkResult)
        ensures
            r.id@ == id@,
            r.category@ == category@,
            r.name@ == name@,
            r.simd_variant@ == simd_variant@,
            r.statistics.iterations == self.iterations,
            r.statistics.wf(),
            final(f).calls() == old(f).calls() + self.warmup + self.iterations,
            final(on_calibrated).fired() == old(on_calibrated).fired() + 1,
            final(timer).time() >= old(timer).time(),
            final(timer).idle() >= old(timer).idle(),
            final(timer).waited() >= old(timer).waited(),
            r.statistics.total_ns == (final(timer).time() - old(timer).time()) - (final(timer).idle() - old(timer).idle()) - (final(timer).waited() - old(timer).waited()),
            !per_iteration ==> final(timer).waited() == old(timer).waited(),
            final(timer).marks() == 4 + (if per_iteration && self.iterations <= MAX_MARKED_ITERS {
                2 * self.iterations
            } else {
                0
            }),
            final(timer).measures() == 2 + (if per_iteration && self.iterations
                <= MAX_MARKED_ITERS {
                self.iterations
            } else {
                0
            }),
            final(timer).frame_waits() == old(timer).frame_waits() + (if per_iteration
                && self.iterations > 0 {
                (self.iterations - 1) as nat
            } else {
                0nat
            }),
    {
        timer.clear_marks();
        timer.clear_measures();

        let warmup_start = mark_name("bench:", id, ":warmup:start");
        let warmup_end = mark_name("bench:", id, ":warmup:end");
        let warmup_span = mark_name("", id, " warm-up");
        timer.mark(warmup_start.as_str());
        self.warmup(f);
        timer.mark(warmup_end.as_str());
        timer.measure_span(warmup_span.as_str(), warmup_start.as_str(), warmup_end.as_str());

        on_calibrated.on_calibrated();

        let measure_start = mark_name("bench:", id, ":measure:start");
        let measure_end = mark_name("bench:", id, ":measure:end");
        let measure_span = mark_name("", id, " measurement");
        timer.mark(measure_start.as_str());
        let statistics = if per_iteration {
            Self::measure_per_iteration_with_frame_wait(timer, id, f, self.iterations)
        } else {
            Self::measure(timer, f, self.iterations)
        };
        timer.mark(measure_end.as_str());
        timer.measure_span(measure_span.as_str(), measure_start.as_str(), measure_end.as_str());

        let timestamp_ms = timer.timestamp_ms();
        BenchmarkResult {
            id: id.to_owned(),
            category: category.to_owned(),
            name: name.to_owned(),
            simd_variant: simd_variant.to_owned(),
            statistics,
            timestamp_ms,
        }
    }

    /// Run a benchmark on the native clock in bulk mode and return the
    /// result.
    pub fn run<W: Workload>(
        &self,
        id: &str,
        category: &str,
        name: &str,
        simd_variant: &str,
        f: &mut W,
    ) -> (r: BenchmarkResult)
        ensures
            r.id@ == id@,
            r.category@ == category@,
            r.name@ == name@,
            r.simd_variant@ == simd_variant@,
            r.statistics.iterations == self.iterations,
            r.statistics.wf(),
            final(f).calls() == old(f).calls() + self.warmup + self.iterations,
    {
        let mut timer = NativeTimer::new();
        let mut hook = NoopCalibration::new();
        self.run_with_timer(&mut timer, id, category, name, simd_variant, f, &mut hook, false)
    }

    /// Run a benchmark on the native clock in bulk mode, firing a callback
    /// exactly once when calibration completes, between warmup and the
    /// first measured iteration.
    pub fn run_with_callback<W: Workload, C: CalibrationHook>(
        &self,
        id: &str,
        category: &str,
        name: &str,
        simd_variant: &str,
        f: &mut W,
        on_calibrated: &mut C,
    ) -> (r: BenchmarkResult)
        ensures
            r.id@ == id@,
            r.category@ == category@,
            r.name@ == name@,
            r.simd_variant@ == simd_variant@,
            r.statistics.iterations == self.iterations,
            r.statistics.wf(),
            final(f).calls() == old(f).calls() + self.warmup + self.iterations,
            final(on_calibrated).fired() == old(on_calibrated).fired() + 1,
    {
        let mut timer = NativeTimer::new();
        self.run_with_timer(&mut timer, id, category, name, simd_variant, f, on_calibrated, false)
    }

    /// Run a benchmark on the native clock with per-iteration timing and an
    /// untimed frame wait between iterations. Designed for pipelined
    /// backends where each iteration should be isolated by a display-frame
    /// gap; the waits are excluded from the reported statistics.
    pub fn run_with_frame_wait<W: Workload>(
        &self,
        id: &str,
        category: &str,
        name: &str,
        simd_variant: &str,
        f: &mut W,
    ) -> (r: BenchmarkResult)
        ensures
            r.id@ == id@,
            r.category@ == category@,
            r.name@ == name@,
            r.simd_variant@ == simd_variant@,
            r.statistics.iterations == self.iterations,
            r.statistics.wf(),
            final(f).calls() == old(f).calls() + self.warmup + self.iterations,
    {
        let mut timer = NativeTimer::new();
        let mut hook = NoopCalibration::new();
        self.run_with_timer(&mut timer, id, category, name, simd_variant, f, &mut hook, true)
    }
}

} // verus!

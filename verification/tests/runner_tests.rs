//! Tests of the timing runner against the deterministic timer.

use vello_bench::runner::{BenchRunner, CalibrationHook, CountingWorkload, NoopCalibration, Workload};
use vello_bench::timer::VirtualTimer;
use vello_bench::runner::u64_to_dec_string;

struct Counter {
    calls: u64,
}

impl Workload for Counter {
    fn iterate(&mut self) {
        self.calls += 1;
    }
}

struct FlagHook {
    fired: u64,
}

impl CalibrationHook for FlagHook {
    fn on_calibrated(&mut self) {
        self.fired += 1;
    }
}

#[test]
fn bulk_mean_equals_fixed_per_call_cost() {
    // Ten iterations whose whole loop takes 5000 ns: the mean converges to
    // the 500 ns per-call cost exactly.
    let mut timer = VirtualTimer::new(5000, 16_670_000);
    let mut w = Counter { calls: 0 };
    let stats = BenchRunner::measure(&mut timer, &mut w, 10);
    assert_eq!(w.calls, 10);
    assert_eq!(stats.iterations, 10);
    assert_eq!(stats.total_ns, 5000);
    assert_eq!(stats.mean_ns, 500);
}

#[test]
fn frame_wait_time_is_excluded_from_reported_total() {
    // Four iterations of 500 ns with a 16.67 ms pause between consecutive
    // iterations: wall clock is 4*500 + 3*16_670_000 ns, but the reported
    // total is 4*500 ns.
    let step = 500u64;
    let frame = 16_670_000u64;
    let mut timer = VirtualTimer::new(step, frame);
    let mut w = Counter { calls: 0 };
    let stats = BenchRunner::measure_per_iteration_with_frame_wait(&mut timer, "demo", &mut w, 4);
    assert_eq!(w.calls, 4);
    assert_eq!(stats.total_ns, 4 * step);
    assert_eq!(stats.mean_ns, step);
    assert_eq!(timer.frame_waits_run(), 3);
    assert_eq!(timer.waited_ns(), 3 * frame);
    assert_eq!(timer.clock_ns(), 4 * step + 3 * frame);
}

#[test]
fn marks_emitted_at_or_below_threshold() {
    let mut timer = VirtualTimer::new(10, 0);
    let mut w = Counter { calls: 0 };
    let stats =
        BenchRunner::measure_per_iteration_with_frame_wait(&mut timer, "marked", &mut w, 3);
    assert_eq!(stats.iterations, 3);
    // One start and one end mark per iteration, plus one span each.
    assert_eq!(timer.marks_recorded(), 6);
    assert_eq!(timer.measures_recorded(), 3);
}

#[test]
fn marks_emitted_exactly_at_threshold() {
    let mut timer = VirtualTimer::new(1, 0);
    let mut w = Counter { calls: 0 };
    let stats =
        BenchRunner::measure_per_iteration_with_frame_wait(&mut timer, "edge", &mut w, 10_000);
    assert_eq!(stats.iterations, 10_000);
    assert_eq!(timer.marks_recorded(), 20_000);
    assert_eq!(timer.measures_recorded(), 10_000);
}

#[test]
fn marks_suppressed_above_threshold() {
    let mut timer = VirtualTimer::new(1, 0);
    let mut w = Counter { calls: 0 };
    let stats =
        BenchRunner::measure_per_iteration_with_frame_wait(&mut timer, "flood", &mut w, 10_001);
    assert_eq!(stats.iterations, 10_001);
    assert_eq!(timer.marks_recorded(), 0);
    assert_eq!(timer.measures_recorded(), 0);
    assert_eq!(w.calls, 10_001);
}

#[test]
fn run_with_timer_reports_identity_and_phase_marks() {
    let runner = BenchRunner::new(5, 7);
    let mut timer = VirtualTimer::new(700, 0);
    let mut w = Counter { calls: 0 };
    let mut hook = FlagHook { fired: 0 };
    let result = runner.run_with_timer(
        &mut timer,
        "cat/scene",
        "cat",
        "scene",
        "sse2",
        &mut w,
        &mut hook,
        false,
    );
    assert_eq!(result.id, "cat/scene");
    assert_eq!(result.category, "cat");
    assert_eq!(result.name, "scene");
    assert_eq!(result.simd_variant, "sse2");
    assert_eq!(result.statistics.iterations, 7);
    assert_eq!(result.statistics.total_ns, 700);
    assert_eq!(result.statistics.mean_ns, 100);
    // Warmup iterations precede calibration, which precedes measurement.
    assert_eq!(w.calls, 5 + 7);
    assert_eq!(hook.fired, 1);
    // Two marks and one span each for the warmup and measurement phases.
    assert_eq!(timer.marks_recorded(), 4);
    assert_eq!(timer.measures_recorded(), 2);
}

#[test]
fn run_with_timer_per_iteration_counts_events() {
    let runner = BenchRunner::new(0, 3);
    let mut timer = VirtualTimer::new(50, 10);
    let mut w = Counter { calls: 0 };
    let mut hook = NoopCalibration::new();
    let result = runner.run_with_timer(
        &mut timer,
        "cat/scene",
        "cat",
        "scene",
        "n/a",
        &mut w,
        &mut hook,
        true,
    );
    assert_eq!(result.statistics.total_ns, 150);
    assert_eq!(timer.marks_recorded(), 4 + 6);
    assert_eq!(timer.measures_recorded(), 2 + 3);
    assert_eq!(timer.frame_waits_run(), 2);
}

#[test]
fn native_run_reports_identity() {
    let runner = BenchRunner::new(2, 3);
    let mut w = Counter { calls: 0 };
    let result = runner.run("vello_cpu/filled_rects", "vello_cpu", "filled_rects", "avx2", &mut w);
    assert_eq!(result.id, "vello_cpu/filled_rects");
    assert_eq!(result.category, "vello_cpu");
    assert_eq!(result.name, "filled_rects");
    assert_eq!(result.simd_variant, "avx2");
    assert_eq!(result.statistics.iterations, 3);
    assert_eq!(w.calls, 5);
    assert_eq!(
        result.statistics.mean_ns,
        result.statistics.total_ns / 3
    );
}

#[test]
fn native_run_with_callback_fires_once() {
    let runner = BenchRunner::new(1, 2);
    let mut w = Counter { calls: 0 };
    let mut hook = FlagHook { fired: 0 };
    let result = runner.run_with_callback("c/n", "c", "n", "fallback", &mut w, &mut hook);
    assert_eq!(hook.fired, 1);
    assert_eq!(w.calls, 3);
    assert_eq!(result.name, "n");
    assert_eq!(result.statistics.iterations, 2);
}

#[test]
fn native_run_with_frame_wait_reports_statistics() {
    // Natively the frame wait is a no-op, so this differs from a bulk run
    // only by per-iteration timing.
    let runner = BenchRunner::new(0, 4);
    let mut w = Counter { calls: 0 };
    let result = runner.run_with_frame_wait("c/n", "c", "n", "sse4_2", &mut w);
    assert_eq!(w.calls, 4);
    assert_eq!(result.statistics.iterations, 4);
    assert_eq!(result.simd_variant, "sse4_2");
    assert_eq!(
        result.statistics.mean_ns,
        result.statistics.total_ns / 4
    );
}

#[test]
fn empty_measurement_has_zero_mean() {
    let mut timer = VirtualTimer::new(40, 0);
    let mut w = Counter { calls: 0 };
    let stats = BenchRunner::measure(&mut timer, &mut w, 0);
    assert_eq!(stats.iterations, 0);
    assert_eq!(stats.mean_ns, 0);
    assert_eq!(w.calls, 0);
}

#[test]
fn counting_workload_counts_its_iterations() {
    let runner = BenchRunner::new(3, 9);
    let mut w = CountingWorkload::new();
    assert_eq!(w.count(), 0);
    let result = runner.run("c/n", "c", "n", "fallback", &mut w);
    assert_eq!(w.count(), 12);
    assert_eq!(result.statistics.iterations, 9);
}

#[test]
fn decimal_formatting() {
    assert_eq!(u64_to_dec_string(0), "0");
    assert_eq!(u64_to_dec_string(7), "7");
    assert_eq!(u64_to_dec_string(10), "10");
    assert_eq!(u64_to_dec_string(12345), "12345");
    assert_eq!(u64_to_dec_string(u64::MAX), "18446744073709551615");
}

//! Platform-clock abstraction for the timing runner.
//!
//! A [`Timer`] provides the clock the runner measures with, plus optional
//! instrumentation hooks (named marks and measure spans on a diagnostic
//! timeline) and an untimed frame-pacing wait. The runner's contracts are
//! stated over an observational model of the timer:
//!
//! - `time()` is the clock value the timer last observed, in nanoseconds.
//!   It only changes when a timer method runs, and never decreases.
//! - `idle()` accumulates clock advance that happened at an observation
//!   point *outside* a measured window (at `now`, which opens a window).
//! - `waited()` accumulates clock advance that happened during
//!   `wait_one_frame`. Clock advance at `elapsed_ns` (which closes a
//!   window) is attributed to neither: it is the measured time itself.
//! - `marks()`, `measures()` and `frame_waits()` count the instrumentation
//!   events recorded since construction (or the last clear).
//!
//! Two implementations are provided: [`NativeTimer`], backed by the
//! process's monotonic clock with no-op instrumentation, and
//! [`VirtualTimer`], a deterministic timer whose clock advances by fixed
//! amounts, for exercising the runner without a platform clock.

use vstd::prelude::*;

verus! {

/// Clock and instrumentation capability the runner is generic over.
pub trait Timer: Sized {
    /// Model: the clock value last observed, in nanoseconds.
    spec fn time(&self) -> u64;

    /// Model: total clock advance observed outside measured windows and
    /// outside frame waits.
    spec fn idle(&self) -> u64;

    /// Model: total clock advance observed during frame waits.
    spec fn waited(&self) -> u64;

    /// Model: number of marks recorded since the last clear.
    spec fn marks(&self) -> nat;

    /// Model: number of measure spans recorded since the last clear.
    spec fn measures(&self) -> nat;

    /// Model: number of frame waits performed.
    spec fn frame_waits(&self) -> nat;

    /// Observe the clock, opening a measured window. Any advance since the
    /// last observation counts as idle time, not measured time.
    fn now(&mut self) -> (t: u64)
        ensures
            t == final(self).time(),
            final(self).time() >= old(self).time(),
            final(self).idle() - old(self).idle() == final(self).time() - old(self).time(),
            final(self).waited() == old(self).waited(),
            final(self).marks() == old(self).marks(),
            final(self).measures() == old(self).measures(),
            final(self).frame_waits() == old(self).frame_waits(),
    ;

    /// Observe the clock and report the nanoseconds elapsed since `start`,
    /// closing a measured window: the advance observed here is the measured
    /// time. Reports zero if `start` lies in the observed future.
    fn elapsed_ns(&mut self, start: u64) -> (d: u64)
        ensures
            final(self).time() >= old(self).time(),
            d == if final(self).time() >= start {
                (final(self).time() - start) as u64
            } else {
                0u64
            },
            final(self).idle() == old(self).idle(),
            final(self).waited() == old(self).waited(),
            final(self).marks() == old(self).marks(),
            final(self).measures() == old(self).measures(),
            final(self).frame_waits() == old(self).frame_waits(),
    ;

    /// Wall-clock time in milliseconds since the Unix epoch. Not part of
    /// the measurement model: nothing is promised of the value.
    fn timestamp_ms(&mut self) -> (t: u64)
        ensures
            *final(self) == *old(self),
    ;

    /// Record a named mark on the diagnostic timeline.
    fn mark(&mut self, name: &str)
        ensures
            final(self).marks() == old(self).marks() + 1,
            final(self).time() == old(self).time(),
            final(self).idle() == old(self).idle(),
            final(self).waited() == old(self).waited(),
            final(self).measures() == old(self).measures(),
            final(self).frame_waits() == old(self).frame_waits(),
    ;

    /// Record a named span between two previously recorded marks.
    fn measure_span(&mut self, name: &str, start_mark: &str, end_mark: &str)
        ensures
            final(self).measures() == old(self).measures() + 1,
            final(self).time() == old(self).time(),
            final(self).idle() == old(self).idle(),
            final(self).waited() == old(self).waited(),
            final(self).marks() == old(self).marks(),
            final(self).frame_waits() == old(self).frame_waits(),
    ;

    /// Discard all recorded marks.
    fn clear_marks(&mut self)
        ensures
            final(self).marks() == 0,
            final(self).time() == old(self).time(),
            final(self).idle() == old(self).idle(),
            final(self).waited() == old(self).waited(),
            final(self).measures() == old(self).measures(),
            final(self).frame_waits() == old(self).frame_waits(),
    ;

    /// Discard all recorded measure spans.
    fn clear_measures(&mut self)
        ensures
            final(self).measures() == 0,
            final(self).time() == old(self).time(),
            final(self).idle() == old(self).idle(),
            final(self).waited() == old(self).waited(),
            final(self).marks() == old(self).marks(),
            final(self).frame_waits() == old(self).frame_waits(),
    ;

    /// Pause for approximately one display frame. The pause is untimed: all
    /// clock advance observed here is accounted as waited, never measured.
    fn wait_one_frame(&mut self)
        ensures
            final(self).time() >= old(self).time(),
            final(self).waited() - old(self).waited() == final(self).time() - old(self).time(),
            final(self).idle() == old(self).idle(),
            final(self).marks() == old(self).marks(),
            final(self).measures() == old(self).measures(),
            final(self).frame_waits() == old(self).frame_waits() + 1,
    ;
}

/// A deterministic timer: the clock starts at zero, advances by a fixed
/// `step_ns` whenever a measured window is closed, and by a fixed
/// `frame_ns` during each frame wait. Instrumentation events are counted.
///
/// With it, a measurement of `n` iterations behaves exactly as if every
/// iteration took `step_ns` and every pacing pause took `frame_ns`.
pub struct VirtualTimer {
    now_ns: u64,
    step_ns: u64,
    frame_ns: u64,
    waited_ns: u64,
    mark_count: u64,
    measure_count: u64,
    wait_count: u64,
    marks_g: Ghost<nat>,
    measures_g: Ghost<nat>,
    waits_g: Ghost<nat>,
}

/// A saturating counter agrees with the unbounded count it mirrors wherever
/// that count fits the counter's width.
pub open spec fn counter_tracks(counter: u64, count: nat) -> bool {
    if count > u64::MAX {
        counter == u64::MAX
    } else {
        counter == count
    }
}

impl VirtualTimer {
    #[verifier::type_invariant]
    spec fn type_inv(self) -> bool {
        &&& self.waited_ns <= self.now_ns
        &&& counter_tracks(self.mark_count, self.marks_g@)
        &&& counter_tracks(self.measure_count, self.measures_g@)
        &&& counter_tracks(self.wait_count, self.waits_g@)
    }

    /// A timer whose windows each last `step_ns` and whose frame waits each
    /// last `frame_ns`.
    pub fn new(step_ns: u64, frame_ns: u64) -> (t: VirtualTimer)
        ensures
            t.time() == 0,
            t.idle() == 0,
            t.waited() == 0,
            t.marks() == 0,
            t.measures() == 0,
            t.frame_waits() == 0,
            t.step() == step_ns,
            t.frame() == frame_ns,
    {
        VirtualTimer {
            now_ns: 0,
            step_ns,
            frame_ns,
            waited_ns: 0,
            mark_count: 0,
            measure_count: 0,
            wait_count: 0,
            marks_g: Ghost(0),
            measures_g: Ghost(0),
            waits_g: Ghost(0),
        }
    }

    /// The fixed duration of one measured window.
    pub closed spec fn step(&self) -> u64 {
        self.step_ns
    }

    /// The fixed duration of one frame wait.
    pub closed spec fn frame(&self) -> u64 {
        self.frame_ns
    }

    /// The current clock value, for inspection.
    pub fn clock_ns(&self) -> (t: u64)
        ensures
            t == self.time(),
    {
        self.now_ns
    }

    /// How many marks are recorded, for inspection. Saturates at `u64::MAX`.
    pub fn marks_recorded(&self) -> (n: u64)
        ensures
            counter_tracks(n, self.marks()),
    {
        proof {
            use_type_invariant(self);
        }
        self.mark_count
    }

    /// How many measure spans are recorded, for inspection. Saturates at
    /// `u64::MAX`.
    pub fn measures_recorded(&self) -> (n: u64)
        ensures
            counter_tracks(n, self.measures()),
    {
        proof {
            use_type_invariant(self);
        }
        self.measure_count
    }

    /// How many frame waits have run, for inspection. Saturates at
    /// `u64::MAX`.
    pub fn frame_waits_run(&self) -> (n: u64)
        ensures
            counter_tracks(n, self.frame_waits()),
    {
        proof {
            use_type_invariant(self);
        }
        self.wait_count
    }

    /// Total clock time spent inside frame waits, for inspection.
    pub fn waited_ns(&self) -> (n: u64)
        ensures
            n == self.waited(),
    {
        self.waited_ns
    }
}

impl Timer for VirtualTimer {
    closed spec fn time(&self) -> u64 {
        self.now_ns
    }

    closed spec fn idle(&self) -> u64 {
        0u64
    }

    closed spec fn waited(&self) -> u64 {
        self.waited_ns
    }

    closed spec fn marks(&self) -> nat {
        self.marks_g@
    }

    closed spec fn measures(&self) -> nat {
        self.measures_g@
    }

    closed spec fn frame_waits(&self) -> nat {
        self.waits_g@
    }

    fn now(&mut self) -> (t: u64) {
        self.now_ns
    }

    fn elapsed_ns(&mut self, start: u64) -> (d: u64) {
        proof {
            use_type_invariant(&*self);
        }
        let advanced = if self.now_ns <= u64::MAX - self.step_ns {
            self.step_ns
        } else {
            u64::MAX - self.now_ns
        };
        self.now_ns = self.now_ns + advanced;
        if self.now_ns >= start {
            self.now_ns - start
        } else {
            0
        }
    }

    fn timestamp_ms(&mut self) -> (t: u64) {
        self.now_ns / 1_000_000
    }

    fn mark(&mut self, name: &str) {
        proof {
            use_type_invariant(&*self);
        }
        let new_count = if self.mark_count < u64::MAX {
            self.mark_count + 1
        } else {
            u64::MAX
        };
        *self = VirtualTimer { mark_count: new_count, marks_g: Ghost(self.marks_g@ + 1), ..*self };
    }

    fn measure_span(&mut self, name: &str, start_mark: &str, end_mark: &str) {
        proof {
            use_type_invariant(&*self);
        }
        let new_count = if self.measure_count < u64::MAX {
            self.measure_count + 1
        } else {
            u64::MAX
        };
        *self = VirtualTimer {
            measure_count: new_count,
            measures_g: Ghost(self.measures_g@ + 1),
            ..*self
        };
    }

    fn clear_marks(&mut self) {
        proof {
            use_type_invariant(&*self);
        }
        *self = VirtualTimer { mark_count: 0, marks_g: Ghost(0), ..*self };
    }

    fn clear_measures(&mut self) {
        proof {
            use_type_invariant(&*self);
        }
        *self = VirtualTimer { measure_count: 0, measures_g: Ghost(0), ..*self };
    }

    fn wait_one_frame(&mut self) {
        proof {
            use_type_invariant(&*self);
        }
        let advanced = if self.now_ns <= u64::MAX - self.frame_ns {
            self.frame_ns
        } else {
            u64::MAX - self.now_ns
        };
        let new_count = if self.wait_count < u64::MAX {
            self.wait_count + 1
        } else {
            u64::MAX
        };
        *self = VirtualTimer {
            now_ns: self.now_ns + advanced,
            waited_ns: self.waited_ns + advanced,
            wait_count: new_count,
            waits_g: Ghost(self.waits_g@ + 1),
            ..*self
        };
    }
}

#[verifier::external_type_specification]
#[verifier::external_body]
pub struct ExInstant(std::time::Instant);

/// Relies on `std::time::Instant::now`: an opaque reading of the process's
/// monotonic clock, usable only as an origin for later elapsed readings.
#[verifier::external_body]
fn instant_now() -> std::time::Instant {
    std::time::Instant::now()
}

/// Relies on `std::time::Instant::elapsed`: the time since `origin` as
/// nanoseconds, saturated to `u64`. Nothing is promised of the value; the
/// caller establishes monotonicity itself by clamping.
#[verifier::external_body]
fn elapsed_since_ns(origin: &std::time::Instant) -> u64 {
    u64::try_from(origin.elapsed().as_nanos()).unwrap_or(u64::MAX)
}

/// Relies on `std::time::SystemTime::now` and `duration_since`: milliseconds
/// since the Unix epoch, saturated to `u64`, or zero when the wall clock
/// reads earlier than the epoch. Nothing is promised of the value.
#[verifier::external_body]
fn unix_time_ms() -> u64 {
    match std::time::SystemTime::now().duration_since(std::time::UNIX_EPOCH) {
        Ok(d) => u64::try_from(d.as_millis()).unwrap_or(u64::MAX),
        Err(_) => 0,
    }
}

/// A timer backed by the process's monotonic clock. Instrumentation hooks
/// and the frame wait do nothing: natively there is no diagnostic timeline
/// to write to and no compositor to pace against.
///
/// The observed time is the clock reading clamped to never decrease, in
/// nanoseconds since the timer was created.
pub struct NativeTimer {
    origin: std::time::Instant,
    last: u64,
    idle_g: Ghost<u64>,
    marks_g: Ghost<nat>,
    measures_g: Ghost<nat>,
    waits_g: Ghost<nat>,
}

impl NativeTimer {
    #[verifier::type_invariant]
    spec fn type_inv(self) -> bool {
        self.idle_g@ <= self.last
    }

    /// A timer whose clock starts now.
    pub fn new() -> (t: NativeTimer)
        ensures
            t.time() == 0,
            t.idle() == 0,
            t.waited() == 0,
            t.marks() == 0,
            t.measures() == 0,
            t.frame_waits() == 0,
    {
        NativeTimer {
            origin: instant_now(),
            last: 0,
            idle_g: Ghost(0),
            marks_g: Ghost(0),
            measures_g: Ghost(0),
            waits_g: Ghost(0),
        }
    }

    /// Read the clock, clamped so that observations never decrease.
    fn observe(&mut self) -> (t: u64)
        ensures
            t == final(self).last,
            final(self).last >= old(self).last,
            final(self).origin == old(self).origin,
            final(self).idle_g == old(self).idle_g,
            final(self).marks_g == old(self).marks_g,
            final(self).measures_g == old(self).measures_g,
            final(self).waits_g == old(self).waits_g,
    {
        proof {
            use_type_invariant(&*self);
        }
        let raw = elapsed_since_ns(&self.origin);
        if raw > self.last {
            self.last = raw;
        }
        self.last
    }
}

impl Default for NativeTimer {
    /// A timer whose clock starts now.
    fn default() -> (t: NativeTimer)
        ensures
            t.time() == 0,
            t.idle() == 0,
            t.waited() == 0,
            t.marks() == 0,
            t.measures() == 0,
            t.frame_waits() == 0,
    {
        NativeTimer::new()
    }
}

impl Timer for NativeTimer {
    closed spec fn time(&self) -> u64 {
        self.last
    }

    closed spec fn idle(&self) -> u64 {
        self.idle_g@
    }

    closed spec fn waited(&self) -> u64 {
        0u64
    }

    closed spec fn marks(&self) -> nat {
        self.marks_g@
    }

    closed spec fn measures(&self) -> nat {
        self.measures_g@
    }

    closed spec fn frame_waits(&self) -> nat {
        self.waits_g@
    }

    fn now(&mut self) -> (t: u64) {
        proof {
            use_type_invariant(&*self);
        }
        let before = self.last;
        let t = self.observe();
        proof {
            self.idle_g@ = (self.idle_g@ + (t - before)) as u64;
        }
        t
    }

    fn elapsed_ns(&mut self, start: u64) -> (d: u64) {
        let t = self.observe();
        if t >= start {
            t - start
        } else {
            0
        }
    }

    fn timestamp_ms(&mut self) -> (t: u64) {
        unix_time_ms()
    }

    fn mark(&mut self, name: &str) {
        proof {
            use_type_invariant(&*self);
            self.marks_g@ = self.marks_g@ + 1;
        }
    }

    fn measure_span(&mut self, name: &str, start_mark: &str, end_mark: &str) {
        proof {
            use_type_invariant(&*self);
            self.measures_g@ = self.measures_g@ + 1;
        }
    }

    fn clear_marks(&mut self) {
        proof {
            use_type_invariant(&*self);
            self.marks_g@ = 0;
        }
    }

    fn clear_measures(&mut self) {
        proof {
            use_type_invariant(&*self);
            self.measures_g@ = 0;
        }
    }

    fn wait_one_frame(&mut self) {
        proof {
            use_type_invariant(&*self);
            self.waits_g@ = self.waits_g@ + 1;
        }
    }
}

} // verus!

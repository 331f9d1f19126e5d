use std::time::Duration;
use std::time::Instant;
use vstd::prelude::*;

verus! {

#[verifier::external_type_specification]
#[verifier::external_body]
pub struct ExInstant(Instant);

/// Relies on `Instant::now`: a reading of the monotonic clock; nothing is
/// known of its value.
pub assume_specification[ Instant::now ]() -> Instant;

/// Relies on `Instant::elapsed`: the time since the reading; nothing is known
/// of its value.
pub assume_specification[ Instant::elapsed ](i: &Instant) -> Duration;

/// Relies on `Duration::as_secs`: the whole seconds of the duration.
pub assume_specification[ Duration::as_secs ](d: &Duration) -> u64;

/// Relies on `Duration::subsec_nanos`: the fractional part of the duration in
/// nanoseconds, which the documentation bounds below one billion.
pub assume_specification[ Duration::subsec_nanos ](d: &Duration) -> (r: u32)
    ensures
        r < 1_000_000_000,
;

/// Nanoseconds in one second.
pub const NANOS_PER_SEC: u64 = 1_000_000_000;

/// Once more than this much time has gathered, the timer hands out a report
/// and starts over.
pub const REPORT_INTERVAL_NANOS: u64 = 1_000_000_000;

/// Addition that stops at `u64::MAX`.
pub open spec fn sat_add(a: int, b: int) -> u64 {
    if a + b > u64::MAX {
        u64::MAX
    } else {
        (a + b) as u64
    }
}

/// Frames counted over one report interval, and the time they took.
#[derive(Clone, Copy, Debug, PartialEq, Eq, Structural)]
pub struct FrameStats {
    pub frames: u64,
    pub nanos: u64,
}

/// What one call of `Timer::update` gives back: the time since the previous
/// call, and a report when an interval has been completed.
#[derive(Clone, Copy, Debug, PartialEq, Eq, Structural)]
pub struct TimerTick {
    pub elapsed_nanos: u64,
    pub report: Option<FrameStats>,
}

/// Frame timer: measures the time between frames and counts frames over
/// intervals of about a second.
pub struct Timer {
    last_call: Instant,
    call_count: u64,
    accum_nanos: u64,
}

/// The report that `record` gives for a timer holding `count` frames and
/// `accum` nanoseconds, when `elapsed` more nanoseconds have passed.
pub open spec fn report_after(count: u64, accum: u64, elapsed: u64) -> Option<FrameStats> {
    if sat_add(accum as int, elapsed as int) > REPORT_INTERVAL_NANOS {
        Some(FrameStats { frames: sat_add(count as int, 1), nanos: sat_add(accum as int, elapsed as int) })
    } else {
        None
    }
}

/// Frames counted by the timer after the step of `report_after`.
pub open spec fn count_after(count: u64, accum: u64, elapsed: u64) -> u64 {
    if report_after(count, accum, elapsed) is Some {
        0
    } else {
        sat_add(count as int, 1)
    }
}

/// Nanoseconds gathered by the timer after the step of `report_after`.
pub open spec fn accum_after(count: u64, accum: u64, elapsed: u64) -> u64 {
    if report_after(count, accum, elapsed) is Some {
        0
    } else {
        sat_add(accum as int, elapsed as int)
    }
}

/// A duration given as whole seconds and nanoseconds, in nanoseconds, capped
/// at `u64::MAX`.
pub fn nanos_from_parts(secs: u64, subsec_nanos: u32) -> (r: u64)
    ensures
        r == sat_add(secs * NANOS_PER_SEC, subsec_nanos as int),
{
    match secs.checked_mul(NANOS_PER_SEC) {
        Some(whole) => whole.saturating_add(subsec_nanos as u64),
        None => {
            assert(secs * NANOS_PER_SEC + subsec_nanos > u64::MAX) by (nonlinear_arith)
                requires
                    secs * NANOS_PER_SEC > u64::MAX,
            ;
            u64::MAX
        },
    }
}

impl Timer {
    /// Frames counted in the current interval.
    pub closed spec fn spec_call_count(&self) -> u64 {
        self.call_count
    }

    /// Nanoseconds gathered in the current interval.
    pub closed spec fn spec_accum_nanos(&self) -> u64 {
        self.accum_nanos
    }

    /// A timer whose interval starts now, with nothing counted.
    pub fn new() -> (r: Self)
        ensures
            r.spec_call_count() == 0,
            r.spec_accum_nanos() == 0,
    {
        Timer { last_call: Instant::now(), call_count: 0, accum_nanos: 0 }
    }

    /// Frames counted in the current interval.
    pub fn call_count(&self) -> (r: u64)
        ensures
            r == self.spec_call_count(),
    {
        self.call_count
    }

    /// Nanoseconds gathered in the current interval.
    pub fn accumulated_nanos(&self) -> (r: u64)
        ensures
            r == self.spec_accum_nanos(),
    {
        self.accum_nanos
    }

    /// Counts one frame that took `elapsed_nanos`. When the interval then
    /// holds more than a second, returns the frames and time of the interval
    /// and starts a new one.
    pub fn record(&mut self, elapsed_nanos: u64) -> (r: Option<FrameStats>)
        ensures
            r == report_after(old(self).spec_call_count(), old(self).spec_accum_nanos(), elapsed_nanos),
            final(self).spec_call_count() == count_after(
                old(self).spec_call_count(),
                old(self).spec_accum_nanos(),
                elapsed_nanos,
            ),
            final(self).spec_accum_nanos() == accum_after(
                old(self).spec_call_count(),
                old(self).spec_accum_nanos(),
                elapsed_nanos,
            ),
    {
        let accum = self.accum_nanos.saturating_add(elapsed_nanos);
        let count = self.call_count.saturating_add(1);
        if accum > REPORT_INTERVAL_NANOS {
            self.accum_nanos = 0;
            self.call_count = 0;
            Some(FrameStats { frames: count, nanos: accum })
        } else {
            self.accum_nanos = accum;
            self.call_count = count;
            None
        }
    }

    /// Measures the time since the previous call (or since `new`), counts
    /// the frame, and restarts the measurement.
    pub fn update(&mut self) -> (r: TimerTick)
        ensures
            r.report == report_after(old(self).spec_call_count(), old(self).spec_accum_nanos(), r.elapsed_nanos),
            final(self).spec_call_count() == count_after(
                old(self).spec_call_count(),
                old(self).spec_accum_nanos(),
                r.elapsed_nanos,
            ),
            final(self).spec_accum_nanos() == accum_after(
                old(self).spec_call_count(),
                old(self).spec_accum_nanos(),
                r.elapsed_nanos,
            ),
    {
        let elapsed = self.last_call.elapsed();
        let elapsed_nanos = nanos_from_parts(elapsed.as_secs(), elapsed.subsec_nanos());
        self.last_call = Instant::now();
        let report = self.record(elapsed_nanos);
        TimerTick { elapsed_nanos, report }
    }
}

} // verus!

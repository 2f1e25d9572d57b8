//! Frame timing: milliseconds between ticks and the frame rate derived from them.

use std::time::Duration;
use std::time::Instant;
use vstd::prelude::*;

verus! {

/// `std::time::Instant`, a reading of the monotonic clock. Its inside is
/// not visible to proofs.
#[verifier::external_type_specification]
#[verifier::external_body]
pub struct ExInstant(Instant);

/// Milliseconds in one second.
pub const MILLIS_PER_SECOND: u64 = 1_000;

/// Nanoseconds in one millisecond.
pub const NANOS_PER_MILLI: u32 = 1_000_000;

/// Elapsed time stored before the first tick.
pub const NEVER_TICKED: u64 = u64::MAX;

/// Whole milliseconds in a span of `secs` seconds and `subsec_nanos` nanoseconds.
pub open spec fn millis_of(secs: u64, subsec_nanos: u32) -> int {
    secs * 1_000 + subsec_nanos / 1_000_000
}

/// Frames per second at `elapsed` milliseconds per frame; zero when no time passed.
pub open spec fn fps_of(elapsed: u64) -> int {
    if elapsed == 0 {
        0
    } else {
        1_000int / (elapsed as int)
    }
}

/// A frame that takes longer than a second runs at zero frames per second;
/// so does a clock that never ticked, whose elapsed time is `NEVER_TICKED`.
pub proof fn lemma_fps_zero_guard(elapsed: u64)
    ensures
        elapsed == 0 || elapsed > MILLIS_PER_SECOND ==> fps_of(elapsed) == 0,
        fps_of(NEVER_TICKED) == 0,
        0 <= fps_of(elapsed) <= MILLIS_PER_SECOND,
{
    if elapsed > 0 {
        let e = elapsed as int;
        assert(0 <= 1_000int / e <= 1_000) by (nonlinear_arith)
            requires
                e > 0,
        ;
        if elapsed > MILLIS_PER_SECOND {
            assert(1_000int / e == 0) by (nonlinear_arith)
                requires
                    e > 1_000,
            ;
        }
    }
    assert(1_000int / (u64::MAX as int) == 0) by (nonlinear_arith);
}

/// `std::time::Instant::now`: the current reading of the monotonic clock.
/// Nothing is claimed of the value.
#[verifier::external_body]
fn clock_now() -> Instant {
    Instant::now()
}

/// `std::time::Instant::elapsed`: the time since `start` was taken.
/// Nothing is claimed of the value.
#[verifier::external_body]
fn clock_elapsed(start: &Instant) -> Duration {
    start.elapsed()
}

/// `std::time::Duration::as_secs`: the whole seconds of `span`.
/// Nothing is claimed of the value.
#[verifier::external_body]
fn span_secs(span: &Duration) -> u64 {
    span.as_secs()
}

/// `std::time::Duration::subsec_nanos`: the fractional part of `span` in
/// nanoseconds, which std documents to be less than one second.
#[verifier::external_body]
fn span_subsec_nanos(span: &Duration) -> (nanos: u32)
    ensures
        nanos < 1_000_000_000,
{
    span.subsec_nanos()
}

/// Converts a span to whole milliseconds, or `None` when they exceed `u64`.
pub fn to_millis(secs: u64, subsec_nanos: u32) -> (millis: Option<u64>)
    ensures
        millis == (if millis_of(secs, subsec_nanos) <= u64::MAX {
            Some(millis_of(secs, subsec_nanos) as u64)
        } else {
            None
        }),
{
    let fraction: u64 = (subsec_nanos / NANOS_PER_MILLI) as u64;
    match secs.checked_mul(MILLIS_PER_SECOND) {
        Some(whole) => whole.checked_add(fraction),
        None => None,
    }
}

/// Measures the time between ticks. A clock is ticked once at the start of
/// every frame.
#[derive(Debug)]
pub struct FrameClock {
    clock: Instant,
    previous: u64,
    elapsed: u64,
}

impl FrameClock {
    /// Clock reading, in milliseconds since construction, at the last tick.
    pub closed spec fn previous(&self) -> u64 {
        self.previous
    }

    /// Milliseconds between the last two ticks; `NEVER_TICKED` before the first.
    pub closed spec fn elapsed(&self) -> u64 {
        self.elapsed
    }

    /// Whether the clock is what a tick could have made of `before`: either
    /// a later reading was recorded together with the time since the earlier
    /// one, or no usable reading came and nothing was recorded.
    pub open spec fn follows(&self, before: &FrameClock) -> bool {
        ||| self.previous() >= before.previous() && self.elapsed() == self.previous()
            - before.previous()
        ||| self.previous() == before.previous() && self.elapsed() == before.elapsed()
    }

    /// A clock that starts counting now and has not ticked yet.
    pub fn new() -> (clock: FrameClock)
        ensures
            clock.previous() == 0,
            clock.elapsed() == NEVER_TICKED,
            fps_of(clock.elapsed()) == 0,
    {
        proof {
            lemma_fps_zero_guard(NEVER_TICKED);
        }
        FrameClock { clock: clock_now(), previous: 0, elapsed: NEVER_TICKED }
    }

    /// Frames per second at the pace of the last frame: a thousand divided
    /// by its milliseconds, and zero where there is nothing to divide by or
    /// the clock has not ticked.
    pub fn get_fps(&self) -> (fps: u64)
        ensures
            fps == fps_of(self.elapsed()),
            self.elapsed() == NEVER_TICKED ==> fps == 0,
    {
        proof {
            lemma_fps_zero_guard(self.elapsed);
        }
        if self.elapsed == 0 {
            return 0;
        }
        MILLIS_PER_SECOND / self.elapsed
    }

    /// Milliseconds between the last two ticks.
    pub fn get_last_frame_duration(&self) -> (millis: u64)
        ensures
            millis == self.elapsed(),
    {
        self.elapsed
    }

    /// Milliseconds since construction, or `None` when they exceed `u64`.
    pub fn get_duration(&self) -> (millis: Option<u64>) {
        let span = clock_elapsed(&self.clock);
        to_millis(span_secs(&span), span_subsec_nanos(&span))
    }

    /// Records a clock reading of `current` milliseconds since construction.
    pub fn advance(&mut self, current: u64)
        requires
            current >= old(self).previous(),
        ensures
            final(self).previous() == current,
            final(self).elapsed() == current - old(self).previous(),
    {
        self.elapsed = current - self.previous;
        self.previous = current;
    }

    /// Samples the clock and records the time since the previous tick. A
    /// reading that is out of range or earlier than the previous one leaves
    /// the clock as it was.
    pub fn tick(&mut self)
        ensures
            final(self).follows(old(self)),
    {
        let reading = self.get_duration();
        self.record(reading);
    }

    /// Whether the clock is what `before` becomes on a clock reading: a
    /// reading that is not earlier than the previous one is recorded together
    /// with the time since the previous one; a reading that is earlier, or
    /// none, which stands for a time out of range, changes nothing.
    pub open spec fn after_reading(&self, before: &FrameClock, reading: Option<u64>) -> bool {
        match reading {
            Some(current) if current >= before.previous() => {
                &&& self.previous() == current
                &&& self.elapsed() == current - before.previous()
            },
            _ => {
                &&& self.previous() == before.previous()
                &&& self.elapsed() == before.elapsed()
            },
        }
    }

    /// Takes a clock reading, in milliseconds since construction, as a tick
    /// does.
    pub fn record(&mut self, reading: Option<u64>)
        ensures
            final(self).after_reading(old(self), reading),
    {
        match reading {
            Some(current) => {
                if current >= self.previous {
                    self.advance(current);
                }
            },
            None => {},
        }
    }
}

} // verus!

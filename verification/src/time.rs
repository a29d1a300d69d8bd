//! Spans of time and the clocks they are read from.

use vstd::prelude::*;

verus! {

/// A span of time, in whole nanoseconds.
#[derive(Debug, Clone, Copy, PartialEq, Eq, Structural)]
pub struct Duration {
    pub nanos: u128,
}

impl Duration {
    /// A span of `millis` milliseconds.
    pub fn from_millis(millis: u64) -> (r: Duration)
        ensures
            r.nanos == millis * 1_000_000,
    {
        Duration { nanos: millis as u128 * 1_000_000 }
    }

    /// A span of `secs` seconds.
    pub fn from_secs(secs: u64) -> (r: Duration)
        ensures
            r.nanos == secs * 1_000_000_000,
    {
        Duration { nanos: secs as u128 * 1_000_000_000 }
    }
}

/// A reading of the monotonic clock, `std::time::Instant`.
#[verifier::external_type_specification]
#[verifier::external_body]
pub struct ExInstant(std::time::Instant);

/// Reads the monotonic clock with `std::time::Instant::now`. Which reading comes back
/// is left open.
#[verifier::external_body]
pub(crate) fn clock_now() -> (r: std::time::Instant) {
    std::time::Instant::now()
}

/// A reading of the monotonic clock, counted from an earlier one.
#[derive(Debug, Clone, Copy)]
pub struct ClockReading {
    origin: std::time::Instant,
    elapsed: Duration,
}

impl View for ClockReading {
    type V = Duration;

    /// How much time had passed.
    closed spec fn view(&self) -> Duration {
        self.elapsed
    }
}

impl ClockReading {
    /// The earlier reading that this one is counted from.
    pub closed spec fn origin(&self) -> std::time::Instant {
        self.origin
    }

    /// How much time had passed.
    pub fn elapsed(&self) -> (r: Duration)
        ensures
            r == self@,
    {
        self.elapsed
    }
}

/// Measures the time since `since` with `std::time::Instant::elapsed`, in nanoseconds. How
/// much has passed is left open.
#[verifier::external_body]
fn elapsed_nanos(since: &std::time::Instant) -> (r: u128) {
    since.elapsed().as_nanos()
}

/// Reads the clock, counted from `since`.
pub(crate) fn clock_elapsed(since: &std::time::Instant) -> (r: ClockReading)
    ensures
        r.origin() == *since,
{
    ClockReading { origin: *since, elapsed: Duration { nanos: elapsed_nanos(since) } }
}

/// The number a 64-bit pattern stands for in two's complement.
pub open spec fn signed64(u: int) -> int {
    if u < 0x8000_0000_0000_0000 {
        u
    } else {
        u - 0x1_0000_0000_0000_0000
    }
}

/// The timestamp of a wall clock that shows `since_epoch` milliseconds since the Unix
/// epoch: the low 64 bits as a signed number, and zero for a clock set before the epoch.
pub fn epoch_millis(since_epoch: Option<u128>) -> (r: i64)
    ensures
        r == match since_epoch {
            Some(ms) => signed64(ms as int % 0x1_0000_0000_0000_0000),
            None => 0,
        },
{
    match since_epoch {
        Some(ms) => {
            let low: u128 = ms % 0x1_0000_0000_0000_0000;
            if low < 0x8000_0000_0000_0000 {
                low as i64
            } else {
                (low as i128 - 0x1_0000_0000_0000_0000) as i64
            }
        },
        None => 0,
    }
}

} // verus!

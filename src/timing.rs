//! Loop timing: elapsed time between iterations, stall detection and the
//! rate derived from a duration. All durations are whole microseconds.
use vstd::prelude::*;

verus! {

/// Stall threshold used while none has been set: one frame at 60 Hz.
pub const DEFAULT_STALL_MICROS: u64 = 16670;

/// Microseconds in one second.
pub const MICROS_PER_SECOND: u64 = 1_000_000;

/// Elapsed time from `last` to `now`; a clock that stepped backwards gives 0.
pub open spec fn elapsed_spec(last: i64, now: i64) -> int {
    if now >= last {
        now - last
    } else {
        0
    }
}

/// Whether an iteration that took `elapsed` exceeds `threshold`.
pub open spec fn is_stall_spec(elapsed: u64, threshold: u64) -> bool {
    elapsed > threshold
}

/// Rate in thousandths of a hertz of a loop whose last iteration took
/// `published` microseconds; nothing published yet, or a zero duration,
/// gives the sentinel 0.
pub open spec fn rate_milli_hz_spec(published: Option<u64>) -> int {
    match published {
        Some(d) => if d == 0 {
            0
        } else {
            (MICROS_PER_SECOND as int * 1000) / d as int
        },
        None => 0,
    }
}

/// The threshold in force: the one that was set, or the default.
pub open spec fn threshold_spec(set: Option<u64>) -> u64 {
    match set {
        Some(t) => t,
        None => DEFAULT_STALL_MICROS,
    }
}

#[verifier::external_type_specification]
#[verifier::external_body]
pub struct ExInstant(std::time::Instant);

/// Relies on `std::time::Instant::now`: a reading of the monotonic clock.
#[verifier::external_body]
fn instant_now() -> std::time::Instant {
    std::time::Instant::now()
}

/// Relies on `std::time::Instant::elapsed`: the time from `origin` to now on
/// the monotonic clock (zero, never negative, if now is not later), taken
/// in whole microseconds.
#[verifier::external_body]
fn micros_since(origin: &std::time::Instant) -> u128 {
    origin.elapsed().as_micros()
}

/// A monotonic clock that reads microseconds since it was started. Two
/// readings of one clock never go backwards, so durations measured between
/// them are never hidden by a change of the system time.
pub struct Clock {
    origin: std::time::Instant,
}

impl Clock {
    /// A clock that reads 0 now.
    pub fn start() -> Clock {
        Clock { origin: instant_now() }
    }

    /// Microseconds since the clock was started (held at `i64::MAX` after
    /// some 292 000 years).
    pub fn now_micros(&self) -> (r: i64)
        ensures
            r >= 0,
    {
        let d = micros_since(&self.origin);
        if d > 9_223_372_036_854_775_807u128 {
            9_223_372_036_854_775_807i64
        } else {
            d as i64
        }
    }
}

/// Elapsed microseconds between two timestamps in microseconds.
pub fn elapsed_micros(last: i64, now: i64) -> (r: u64)
    ensures
        r as int == elapsed_spec(last, now),
{
    if now >= last {
        let d: i128 = now as i128 - last as i128;
        d as u64
    } else {
        0
    }
}

/// Whether an iteration of `elapsed` microseconds is a stall under `threshold`.
pub fn is_stall(elapsed: u64, threshold: u64) -> (r: bool)
    ensures
        r == is_stall_spec(elapsed, threshold),
{
    elapsed > threshold
}

/// Rate derived from the last published duration, in thousandths of a
/// hertz (20 000 µs gives 50 000, i.e. 50 Hz); 0 when there is none.
pub fn rate_milli_hz(published: Option<u64>) -> (r: u64)
    ensures
        r as int == rate_milli_hz_spec(published),
{
    match published {
        Some(d) => if d == 0 {
            0
        } else {
            1_000_000_000u64 / d
        },
        None => 0,
    }
}

/// The stall threshold in force given what was stored, if anything.
pub fn threshold_or_default(set: Option<u64>) -> (r: u64)
    ensures
        r == threshold_spec(set),
{
    match set {
        Some(t) => t,
        None => DEFAULT_STALL_MICROS,
    }
}

} // verus!

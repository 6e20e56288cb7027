//! Monotonic clock readings in nanoseconds since a fixed origin.

use std::time::{Duration, Instant};
use vstd::prelude::*;

verus! {

#[verifier::external_type_specification]
#[verifier::external_body]
pub struct ExInstant(Instant);

/// A monotonic clock that reports nanoseconds elapsed since its creation.
pub struct MonotonicClock {
    origin: Instant,
}

/// Reads the current instant with `std::time::Instant::now`. Nothing is
/// stated about the result: it depends on the time of the call.
#[verifier::external_body]
fn instant_now() -> Instant {
    Instant::now()
}

/// Measures the time since `origin` with `Instant::elapsed`. Nothing is
/// stated about the result: it depends on the time of the call.
#[verifier::external_body]
fn elapsed_since(origin: &Instant) -> Duration {
    origin.elapsed()
}

/// The length of `d` in whole nanoseconds, with `Duration::as_nanos`.
/// Nothing is stated about the result: a `Duration` is opaque here and
/// only ever comes from a clock reading.
#[verifier::external_body]
fn duration_nanos(d: &Duration) -> u128 {
    d.as_nanos()
}

impl MonotonicClock {
    /// Starts a clock whose origin is the current instant.
    pub fn start() -> MonotonicClock {
        MonotonicClock { origin: instant_now() }
    }

    /// The number of nanoseconds elapsed since the clock was started
    /// (saturating at `u64::MAX`, about 584 years).
    pub fn now_ns(&self) -> u64 {
        saturating_nanos(duration_nanos(&elapsed_since(&self.origin)))
    }
}

/// A nanosecond count narrowed to `u64`, saturating at `u64::MAX`.
pub fn saturating_nanos(n: u128) -> (r: u64)
    ensures
        r == if n > u64::MAX as u128 {
            u64::MAX as int
        } else {
            n as int
        },
{
    if n > u64::MAX as u128 {
        u64::MAX
    } else {
        n as u64
    }
}

} // verus!

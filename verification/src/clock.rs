//! Access to the system clocks. What these functions return depends on the
//! time at which they are called, so their contracts promise nothing about
//! it; the logic that uses them takes the readings as arguments elsewhere.

use std::time::{Duration, Instant, SystemTime};
use vstd::prelude::*;

verus! {

#[verifier::external_type_specification]
#[verifier::external_body]
pub struct ExSystemTime(SystemTime);

#[verifier::external_type_specification]
#[verifier::external_body]
pub struct ExInstant(Instant);

/// Calls `SystemTime::now`. Nothing is claimed of the reading.
#[verifier::external_body]
fn system_time_now() -> SystemTime {
    SystemTime::now()
}

/// Calls `SystemTime::duration_since(UNIX_EPOCH)`; `None` stands for the
/// error that the call returns when the reading lies before the epoch.
/// Nothing is claimed of the duration.
#[verifier::external_body]
fn duration_since_unix_epoch(t: &SystemTime) -> Option<Duration> {
    t.duration_since(SystemTime::UNIX_EPOCH).ok()
}

/// Calls `Duration::as_millis`. Nothing is claimed of the value: the
/// duration is opaque here.
#[verifier::external_body]
fn duration_as_millis(d: &Duration) -> u128 {
    d.as_millis()
}

/// Calls `Duration::as_secs`. Nothing is claimed of the value.
#[verifier::external_body]
fn duration_as_secs(d: &Duration) -> u64 {
    d.as_secs()
}

/// Calls `Duration::as_nanos`. Nothing is claimed of the value.
#[verifier::external_body]
fn duration_as_nanos(d: &Duration) -> u128 {
    d.as_nanos()
}

/// Calls `Instant::now`. Nothing is claimed of the reading.
#[verifier::external_body]
pub(crate) fn instant_now() -> Instant {
    Instant::now()
}

/// Calls `Instant::elapsed`. Nothing is claimed of the duration, which
/// depends on the time of the call.
#[verifier::external_body]
fn instant_elapsed(t: &Instant) -> Duration {
    t.elapsed()
}

/// Calls `Instant::duration_since`. std documents that the call gives a
/// zero duration when `earlier` is in fact the later instant; nothing else
/// is claimed of it.
#[verifier::external_body]
fn instant_duration_since(later: &Instant, earlier: &Instant) -> Duration {
    later.duration_since(*earlier)
}

/// The whole seconds elapsed since `t`.
pub(crate) fn elapsed_secs(t: &Instant) -> u64 {
    let elapsed = instant_elapsed(t);
    duration_as_secs(&elapsed)
}

/// The nanoseconds from `earlier` to `later` (zero when `earlier` is later).
pub(crate) fn nanos_between(later: &Instant, earlier: &Instant) -> u128 {
    let between = instant_duration_since(later, earlier);
    duration_as_nanos(&between)
}

/// The number of milliseconds since the Unix epoch on the system clock, or
/// `None` when the clock reads a time before the epoch.
pub fn current_time_millis() -> Option<u128> {
    let now = system_time_now();
    match duration_since_unix_epoch(&now) {
        Some(since) => Some(duration_as_millis(&since)),
        None => None,
    }
}

} // verus!

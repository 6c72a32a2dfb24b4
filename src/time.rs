//! Durations and clock readings.
//!
//! A `Duration` shows no fields to proofs; its value is known through
//! `nanos_of`, the total number of nanoseconds it spans.

use std::time::{Duration, Instant, SystemTime, UNIX_EPOCH};
use vstd::prelude::*;

verus! {

#[verifier::external_type_specification]
#[verifier::external_body]
pub struct ExInstant(Instant);

#[verifier::external_type_specification]
#[verifier::external_body]
pub struct ExSystemTime(SystemTime);

/// The whole number of nanoseconds that a duration spans (`Duration::as_nanos`).
pub uninterp spec fn nanos_of(d: Duration) -> nat;

pub const NANOS_PER_MILLI: u64 = 1_000_000;

pub const NANOS_PER_SEC: u64 = 1_000_000_000;

/// The largest number of nanoseconds a duration can span.
pub open spec fn max_duration_nanos() -> nat {
    u64::MAX as nat * NANOS_PER_SEC as nat + (NANOS_PER_SEC - 1) as nat
}

/// Relies on `Duration::as_nanos`: the total number of whole nanoseconds,
/// which never exceeds that of `Duration::MAX`.
#[verifier::external_body]
pub(crate) fn duration_as_nanos(d: Duration) -> (r: u128)
    ensures
        r as nat == nanos_of(d),
        r as nat <= max_duration_nanos(),
{
    d.as_nanos()
}

/// Relies on `Duration::from_millis`: a duration of `ms` milliseconds.
#[verifier::external_body]
pub(crate) fn duration_from_millis(ms: u64) -> (r: Duration)
    ensures
        nanos_of(r) == ms as nat * NANOS_PER_MILLI as nat,
{
    Duration::from_millis(ms)
}

/// Relies on `Duration::from_nanos`: a duration of `ns` nanoseconds.
#[verifier::external_body]
pub(crate) fn duration_from_nanos(ns: u64) -> (r: Duration)
    ensures
        nanos_of(r) == ns as nat,
{
    Duration::from_nanos(ns)
}

/// Relies on `Duration::new`: `secs` seconds plus `nanos` nanoseconds; it
/// panics only when the carry from `nanos` overflows the seconds.
#[verifier::external_body]
pub(crate) fn duration_new(secs: u64, nanos: u32) -> (r: Duration)
    requires
        secs as nat + nanos as nat / NANOS_PER_SEC as nat <= u64::MAX as nat,
    ensures
        nanos_of(r) == secs as nat * NANOS_PER_SEC as nat + nanos as nat,
{
    Duration::new(secs, nanos)
}

/// Relies on `Instant::now`: a reading of the monotonic clock.
#[verifier::external_body]
pub(crate) fn instant_now() -> (r: Instant) {
    Instant::now()
}

/// Relies on `Instant::elapsed`: the time since `i`, which depends on when it
/// is asked.
#[verifier::external_body]
pub(crate) fn instant_elapsed(i: &Instant) -> (r: Duration) {
    i.elapsed()
}

/// Relies on `SystemTime::now`: a reading of the system clock.
#[verifier::external_body]
pub(crate) fn system_now() -> (r: SystemTime) {
    SystemTime::now()
}

/// Relies on `SystemTime::duration_since`: the time from the Unix epoch to
/// `t`, or nothing for a time before the epoch.
#[verifier::external_body]
pub(crate) fn since_unix_epoch(t: SystemTime) -> (r: Option<Duration>) {
    t.duration_since(UNIX_EPOCH).ok()
}

/// Nanoseconds from the Unix epoch to now: zero for a clock set before the
/// epoch, held at `u64::MAX` past it.
pub(crate) fn unix_time_nanos() -> (r: u64) {
    match since_unix_epoch(system_now()) {
        None => 0,
        Some(d) => {
            let ns = duration_as_nanos(d);
            if ns > u64::MAX as u128 {
                u64::MAX
            } else {
                ns as u64
            }
        },
    }
}

} // verus!

//! A duration setting that any thread may read or replace without a lock.

use crate::time::{duration_as_nanos, duration_from_millis, nanos_of, NANOS_PER_MILLI};
use std::sync::atomic::{AtomicU64, Ordering};
use std::time::Duration;
use vstd::prelude::*;

verus! {

/// Whole milliseconds in `nanos` nanoseconds, rounded up.
pub open spec fn millis_rounded_up(nanos: nat) -> nat {
    (nanos + (NANOS_PER_MILLI - 1) as nat) / NANOS_PER_MILLI as nat
}

/// The stored form of a duration: its milliseconds rounded up, saturating at
/// `u64::MAX`.
pub open spec fn millis_saturating(d: Duration) -> nat {
    let ms = millis_rounded_up(nanos_of(d));
    if ms <= u64::MAX as nat {
        ms
    } else {
        u64::MAX as nat
    }
}

/// The stored form of an optional duration: `None` is 0.
pub open spec fn encoded(d: Option<Duration>) -> nat {
    match d {
        None => 0,
        Some(d) => millis_saturating(d),
    }
}

/// `r` is what the stored value `ms` stands for: nothing for 0, else `ms`
/// milliseconds.
pub open spec fn decodes_to(ms: nat, r: Option<Duration>) -> bool {
    if ms == 0 {
        r is None
    } else {
        r is Some && nanos_of(r.unwrap()) == ms * NANOS_PER_MILLI as nat
    }
}

/// `r` is a value that some stored setting stands for.
pub open spec fn is_stored_form(r: Option<Duration>) -> bool {
    exists|ms: u64| decodes_to(ms as nat, r)
}

/// Converts a duration to milliseconds, rounding up and saturating.
pub fn dur_to_ms(dur: Duration) -> (r: u64)
    ensures
        r as nat == millis_saturating(dur),
{
    let ns = duration_as_nanos(dur);
    let ms = (ns + (NANOS_PER_MILLI - 1) as u128) / NANOS_PER_MILLI as u128;
    if ms > u64::MAX as u128 {
        u64::MAX
    } else {
        ms as u64
    }
}

/// The stored form of an optional duration.
pub fn encode(dur: Option<Duration>) -> (r: u64)
    ensures
        r as nat == encoded(dur),
{
    match dur {
        None => 0,
        Some(d) => dur_to_ms(d),
    }
}

/// The optional duration that a stored value stands for.
pub fn decode(ms: u64) -> (r: Option<Duration>)
    ensures
        decodes_to(ms as nat, r),
{
    if ms == 0 {
        None
    } else {
        Some(duration_from_millis(ms))
    }
}

/// Decoding what was encoded gives back the duration rounded up to whole
/// milliseconds (saturating at `u64::MAX` of them), or nothing where the
/// duration is absent or zero.
pub proof fn lemma_encode_decode(d: Option<Duration>, r: Option<Duration>)
    requires
        decodes_to(encoded(d), r),
    ensures
        d is None ==> r is None,
        d is Some && nanos_of(d.unwrap()) == 0 ==> r is None,
        d is Some && 0 < nanos_of(d.unwrap()) && millis_rounded_up(nanos_of(d.unwrap()))
            <= u64::MAX as nat ==> r is Some && nanos_of(d.unwrap()) <= nanos_of(r.unwrap())
            < nanos_of(d.unwrap()) + NANOS_PER_MILLI as nat,
        d is Some && (u64::MAX as nat) < millis_rounded_up(nanos_of(d.unwrap())) ==> r is Some
            && nanos_of(r.unwrap()) == u64::MAX as nat * NANOS_PER_MILLI as nat,
{
    if let Some(dd) = d {
        let n = nanos_of(dd);
        let ms = millis_rounded_up(n);
        if n == 0 {
            assert(ms == 0);
        } else {
            assert(ms >= 1 && n <= ms * 1_000_000 < n + 1_000_000) by (nonlinear_arith)
                requires
                    ms == (n + 999_999) / 1_000_000,
                    n > 0,
            ;
        }
    }
}

/// An optional duration held as milliseconds in an atomic cell; 0 stands for
/// `None`. Any thread may replace it at any time, so a read promises only that
/// it returns a value of the stored form.
#[derive(Debug)]
pub struct AtomicDuration(AtomicU64);

impl AtomicDuration {
    /// A cell that holds `dur`, rounded up to whole milliseconds.
    pub fn new(dur: Option<Duration>) -> (r: AtomicDuration) {
        AtomicDuration(AtomicU64::new(encode(dur)))
    }

    /// The setting as it is now.
    pub fn get(&self) -> (r: Option<Duration>)
        ensures
            is_stored_form(r),
    {
        let ms = self.0.load(Ordering::Relaxed);
        let r = decode(ms);
        assert(decodes_to(ms as nat, r));
        r
    }

    /// Replaces the setting with `dur`, rounded up to whole milliseconds.
    pub fn store(&self, dur: Option<Duration>) {
        self.0.store(encode(dur), Ordering::Relaxed);
    }

    /// Returns the setting and leaves `None` in its place.
    pub fn take(&self) -> (r: Option<Duration>)
        ensures
            is_stored_form(r),
    {
        let ms = self.0.swap(0, Ordering::Relaxed);
        let r = decode(ms);
        assert(decodes_to(ms as nat, r));
        r
    }

    /// Consumes the cell and returns its setting.
    pub fn into_inner(self) -> (r: Option<Duration>)
        ensures
            is_stored_form(r),
    {
        self.take()
    }
}

} // verus!

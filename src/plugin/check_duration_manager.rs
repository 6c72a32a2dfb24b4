//! A decorator that stamps each resource with its creation instant and, by a
//! fixed mode, skips or fails validation according to the resource's age.

use crate::time::{duration_as_nanos, instant_elapsed, instant_now, nanos_of};
use std::ops::{Deref, DerefMut};
use std::time::{Duration, Instant};
use vstd::prelude::*;

verus! {

/// How a decorator treats validation.
#[derive(Debug, Clone, Copy)]
pub enum CheckMode {
    /// Always validate through the inner manager.
    NoLimit,
    /// Succeed at once while the resource is younger than the interval.
    SkipInterval(Duration),
    /// Fail once the resource is older than the lifetime.
    MaxLifetime(Duration),
}

/// What a decorator does with one validation request.
#[derive(Debug, Clone, Copy, PartialEq, Eq, Structural)]
pub enum CheckVerdict {
    /// Report success without asking the inner manager.
    Accept,
    /// Report that the resource exceeded its lifetime.
    Reject,
    /// Ask the inner manager.
    Delegate,
}

/// The verdict for a resource `age_nanos` nanoseconds old under `mode`.
pub open spec fn verdict(mode: CheckMode, age_nanos: nat) -> CheckVerdict {
    match mode {
        CheckMode::NoLimit => CheckVerdict::Delegate,
        CheckMode::SkipInterval(d) => if age_nanos < nanos_of(d) {
            CheckVerdict::Accept
        } else {
            CheckVerdict::Delegate
        },
        CheckMode::MaxLifetime(d) => if age_nanos > nanos_of(d) {
            CheckVerdict::Reject
        } else {
            CheckVerdict::Delegate
        },
    }
}

/// A verdict that some age can give under `mode`.
pub open spec fn possible_verdict(mode: CheckMode, r: CheckVerdict) -> bool {
    match mode {
        CheckMode::NoLimit => r == CheckVerdict::Delegate,
        CheckMode::SkipInterval(_) => r != CheckVerdict::Reject,
        CheckMode::MaxLifetime(_) => r != CheckVerdict::Accept,
    }
}

/// The error text of a rejected validation.
pub fn lifetime_exceeded_message() -> (r: &'static str)
    ensures
        r@ == "connection exceeded max lifetime"@,
{
    proof {
        reveal_strlit("connection exceeded max lifetime");
    }
    "connection exceeded max lifetime"
}

impl CheckMode {
    /// The verdict for a resource of age `age`.
    pub fn decide(&self, age: Duration) -> (r: CheckVerdict)
        ensures
            r == verdict(*self, nanos_of(age)),
    {
        let age_ns = duration_as_nanos(age);
        match self {
            CheckMode::NoLimit => CheckVerdict::Delegate,
            CheckMode::SkipInterval(d) => {
                if age_ns < duration_as_nanos(*d) {
                    CheckVerdict::Accept
                } else {
                    CheckVerdict::Delegate
                }
            },
            CheckMode::MaxLifetime(d) => {
                if age_ns > duration_as_nanos(*d) {
                    CheckVerdict::Reject
                } else {
                    CheckVerdict::Delegate
                }
            },
        }
    }
}

/// A resource stamped with the instant it was created.
pub struct DurationConnection<T> {
    inner: T,
    instant: Instant,
}

impl<T> DurationConnection<T> {
    /// Stamps `inner` with the current instant.
    pub fn new(inner: T) -> (r: DurationConnection<T>)
        ensures
            r.inner() == inner,
    {
        DurationConnection { inner, instant: instant_now() }
    }

    /// The wrapped resource.
    pub closed spec fn inner(&self) -> T {
        self.inner
    }

    /// The wrapped resource.
    pub fn get_ref(&self) -> (r: &T)
        ensures
            *r == self.inner(),
    {
        &self.inner
    }

    /// The wrapped resource, for change.
    pub fn get_mut(&mut self) -> (r: &mut T)
        ensures
            *r == old(self).inner(),
            final(self).inner() == *final(r),
    {
        &mut self.inner
    }

    /// Unwraps the resource.
    pub fn into_inner(self) -> (r: T)
        ensures
            r == self.inner(),
    {
        self.inner
    }

    /// What `mode` does with this resource at its present age.
    pub fn verdict(&self, mode: &CheckMode) -> (r: CheckVerdict)
        ensures
            possible_verdict(*mode, r),
    {
        let age = instant_elapsed(&self.instant);
        mode.decide(age)
    }
}

impl<T> Deref for DurationConnection<T> {
    type Target = T;

    fn deref(&self) -> &T {
        &self.inner
    }
}

impl<T> DerefMut for DurationConnection<T> {
    fn deref_mut(&mut self) -> &mut T {
        &mut self.inner
    }
}

/// A manager that wraps `manager`, stamps each resource it creates, and
/// validates by `mode`.
pub struct CheckDurationManager<M> {
    /// The wrapped manager.
    pub manager: M,
    /// How validation is treated.
    pub mode: CheckMode,
}

impl<M> CheckDurationManager<M> {
    /// Wraps `manager` with `mode`.
    pub fn new(manager: M, mode: CheckMode) -> (r: CheckDurationManager<M>)
        ensures
            r.manager == manager,
            r.mode == mode,
    {
        CheckDurationManager { manager, mode }
    }
}

} // verus!

//! A decorator whose check mode can be replaced at run time from any thread.

pub use crate::plugin::check_duration_manager::CheckMode;
use crate::plugin::check_duration_manager::{possible_verdict, CheckVerdict};
use crate::time::{
    duration_as_nanos, duration_new, instant_elapsed, instant_now, max_duration_nanos, nanos_of,
    NANOS_PER_SEC,
};
use atomic::Atomic;
use std::ops::{Deref, DerefMut};
use std::sync::atomic::{AtomicI8, Ordering};
use std::time::Instant;
use vstd::prelude::*;

verus! {

#[verifier::external_type_specification]
#[verifier::external_body]
#[verifier::reject_recursive_types(T)]
pub struct ExAtomic<T>(Atomic<T>);

/// Relies on `atomic::Atomic::new`: a cell holding `v`.
#[verifier::external_body]
fn atomic_nanos_new(v: u128) -> (r: Atomic<u128>) {
    Atomic::new(v)
}

/// Relies on `atomic::Atomic::load` with relaxed ordering, which does not
/// panic; any thread may have stored since, so nothing is promised of the
/// value.
#[verifier::external_body]
fn atomic_nanos_load(a: &Atomic<u128>) -> (r: u128) {
    a.load(Ordering::Relaxed)
}

/// Relies on `atomic::Atomic::store` with relaxed ordering, which does not
/// panic.
#[verifier::external_body]
fn atomic_nanos_store(a: &Atomic<u128>, v: u128) {
    a.store(v, Ordering::Relaxed)
}

/// The largest number of nanoseconds a duration can span.
pub const MAX_DURATION_NANOS: u128 = 18_446_744_073_709_551_615_999_999_999;

/// The code under which a mode's kind is stored.
pub open spec fn mode_code(m: CheckMode) -> i8 {
    match m {
        CheckMode::NoLimit => 0,
        CheckMode::SkipInterval(_) => 1,
        CheckMode::MaxLifetime(_) => 2,
    }
}

/// The nanoseconds stored beside a mode's code (0 where it has none).
pub open spec fn mode_nanos(m: CheckMode) -> nat {
    match m {
        CheckMode::NoLimit => 0,
        CheckMode::SkipInterval(d) => nanos_of(d),
        CheckMode::MaxLifetime(d) => nanos_of(d),
    }
}

/// `m` is the mode that the stored pair `code`, `nanos` stands for: code 1
/// and 2 give the interval and the lifetime, of `nanos` nanoseconds held at
/// the largest duration; any other code stands for no limit.
pub open spec fn decodes_mode(code: i8, nanos: nat, m: CheckMode) -> bool {
    let held = if nanos <= max_duration_nanos() {
        nanos
    } else {
        max_duration_nanos()
    };
    match m {
        CheckMode::NoLimit => code != 1 && code != 2,
        CheckMode::SkipInterval(d) => code == 1 && nanos_of(d) == held,
        CheckMode::MaxLifetime(d) => code == 2 && nanos_of(d) == held,
    }
}

/// Two modes of the same kind and duration.
pub open spec fn same_mode(a: CheckMode, b: CheckMode) -> bool {
    mode_code(a) == mode_code(b) && mode_nanos(a) == mode_nanos(b)
}

/// A mode stored and read back is the same mode.
pub proof fn lemma_mode_round_trip(m: CheckMode, r: CheckMode)
    requires
        mode_nanos(m) <= max_duration_nanos(),
        decodes_mode(mode_code(m), mode_nanos(m), r),
    ensures
        same_mode(r, m),
{
}

impl CheckMode {
    /// The code of this mode's kind.
    pub fn as_i8(&self) -> (r: i8)
        ensures
            r == mode_code(*self),
    {
        match self {
            CheckMode::NoLimit => 0,
            CheckMode::SkipInterval(_) => 1,
            CheckMode::MaxLifetime(_) => 2,
        }
    }

    /// The nanoseconds of this mode's duration, 0 where it has none.
    pub fn as_nanos(&self) -> (r: u128)
        ensures
            r as nat == mode_nanos(*self),
            r as nat <= max_duration_nanos(),
    {
        match self {
            CheckMode::NoLimit => 0,
            CheckMode::SkipInterval(d) => duration_as_nanos(*d),
            CheckMode::MaxLifetime(d) => duration_as_nanos(*d),
        }
    }

    /// The mode that a stored code and duration stand for.
    pub fn new(mode: i8, duration: u128) -> (r: CheckMode)
        ensures
            decodes_mode(mode, duration as nat, r),
    {
        let held = if duration > MAX_DURATION_NANOS {
            MAX_DURATION_NANOS
        } else {
            duration
        };
        let q = held / NANOS_PER_SEC as u128;
        let m = held % NANOS_PER_SEC as u128;
        assert(q * 1_000_000_000 + m == held && q <= u64::MAX && m < 1_000_000_000) by (nonlinear_arith)
            requires
                q == held / 1_000_000_000,
                m == held % 1_000_000_000,
                held <= 18_446_744_073_709_551_615_999_999_999u128,
        ;
        let secs = q as u64;
        let nanos = m as u32;
        if mode == 1 {
            CheckMode::SkipInterval(duration_new(secs, nanos))
        } else if mode == 2 {
            CheckMode::MaxLifetime(duration_new(secs, nanos))
        } else {
            CheckMode::NoLimit
        }
    }
}

/// A check mode held in two atomic cells, the kind and the duration, that any
/// thread may replace. The two are read one after the other, so a read
/// promises only some mode that a stored pair stands for.
pub struct CheckModeAtomic {
    pub mode: AtomicI8,
    pub duration: Atomic<u128>,
}

impl CheckModeAtomic {
    /// Cells holding `mode`.
    pub fn new(mode: CheckMode) -> (r: CheckModeAtomic) {
        CheckModeAtomic {
            mode: AtomicI8::new(mode.as_i8()),
            duration: atomic_nanos_new(mode.as_nanos()),
        }
    }

    /// Replaces the mode.
    pub fn set_mode(&self, mode: CheckMode) {
        self.mode.store(mode.as_i8(), Ordering::Relaxed);
        atomic_nanos_store(&self.duration, mode.as_nanos());
    }

    /// The mode as it is now.
    pub fn get_mode(&self) -> (r: CheckMode)
        ensures
            exists|code: i8, nanos: u128| decodes_mode(code, nanos as nat, r),
    {
        let mode = self.mode.load(Ordering::Relaxed);
        let duration = atomic_nanos_load(&self.duration);
        CheckMode::new(mode, duration)
    }
}

/// A resource stamped with its creation instant where the mode it was made
/// under needs one.
pub struct DurationConnection<T> {
    inner: T,
    instant: Option<Instant>,
}

impl<T> DurationConnection<T> {
    /// Wraps `inner`, stamped with the current instant unless `mode` is
    /// `NoLimit`.
    pub fn new(inner: T, mode: &CheckMode) -> (r: DurationConnection<T>)
        ensures
            r.inner() == inner,
            r.stamped() <==> !(*mode is NoLimit),
    {
        let instant = match mode {
            CheckMode::NoLimit => None,
            CheckMode::SkipInterval(_) => Some(instant_now()),
            CheckMode::MaxLifetime(_) => Some(instant_now()),
        };
        DurationConnection { inner, instant }
    }

    /// The wrapped resource.
    pub closed spec fn inner(&self) -> T {
        self.inner
    }

    /// Whether the resource carries its creation instant.
    pub closed spec fn stamped(&self) -> bool {
        self.instant is Some
    }

    /// The wrapped resource.
    pub fn get_ref(&self) -> (r: &T)
        ensures
            *r == self.inner(),
    {
        &self.inner
    }

    /// The wrapped resource, for change.
    pub fn get_mut(&mut self) -> (r: &mut T)
        ensures
            *r == old(self).inner(),
            final(self).inner() == *final(r),
            final(self).stamped() == old(self).stamped(),
    {
        &mut self.inner
    }

    /// What `mode` does with this resource at its present age; an unstamped
    /// resource is always validated by the inner manager.
    pub fn verdict(&self, mode: &CheckMode) -> (r: CheckVerdict)
        ensures
            possible_verdict(*mode, r),
            !self.stamped() ==> r == CheckVerdict::Delegate,
    {
        match &self.instant {
            None => CheckVerdict::Delegate,
            Some(i) => {
                let age = instant_elapsed(i);
                mode.decide(age)
            },
        }
    }
}

impl<T> Deref for DurationConnection<T> {
    type Target = T;

    fn deref(&self) -> &T {
        &self.inner
    }
}

impl<T> DerefMut for DurationConnection<T> {
    fn deref_mut(&mut self) -> &mut T {
        &mut self.inner
    }
}

/// A manager that wraps `manager` and validates by a mode that can be
/// replaced while it runs.
pub struct DurationManager<M> {
    /// The wrapped manager.
    pub manager: M,
    /// How validation is treated.
    pub mode: CheckModeAtomic,
}

impl<M> DurationManager<M> {
    /// Wraps `manager` with `mode`.
    pub fn new(manager: M, mode: CheckMode) -> (r: DurationManager<M>)
        ensures
            r.manager == manager,
    {
        DurationManager { manager, mode: CheckModeAtomic::new(mode) }
    }
}

impl<M> Deref for DurationManager<M> {
    type Target = M;

    fn deref(&self) -> &M {
        &self.manager
    }
}

impl<M> DerefMut for DurationManager<M> {
    fn deref_mut(&mut self) -> &mut M {
        &mut self.manager
    }
}

} // verus!

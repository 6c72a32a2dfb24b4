//! A resource wrapper that may record when the resource was created, so that
//! its age can be measured against a lifetime.

use crate::pool_core::sub_floor;
use crate::time::{duration_as_nanos, duration_from_nanos, nanos_of, unix_time_nanos};
use std::time::Duration;
use vstd::prelude::*;

verus! {

/// The age, in nanoseconds at `now`, of a resource created at `created`
/// where its timestamp is tracked; 0 otherwise.
pub open spec fn age_nanos(enabled: bool, created: Option<u64>, now: nat) -> nat {
    if enabled && created is Some {
        sub_floor(now, created.unwrap() as nat)
    } else {
        0
    }
}

/// A resource with an optional creation timestamp, in nanoseconds since the
/// Unix epoch.
#[derive(Debug)]
pub struct TimeConnection<C> {
    pub connection: C,
    pub enable_timestamp: bool,
    pub created_at_nanos: Option<u64>,
}

impl<C> TimeConnection<C> {
    /// Wraps `connection`, recording the current time where
    /// `enable_timestamp` asks for it.
    pub fn new(connection: C, enable_timestamp: bool) -> (r: TimeConnection<C>)
        ensures
            r.connection == connection,
            r.enable_timestamp == enable_timestamp,
            r.created_at_nanos is Some <==> enable_timestamp,
    {
        let created_at_nanos = if enable_timestamp {
            Some(unix_time_nanos())
        } else {
            None
        };
        TimeConnection { connection, enable_timestamp, created_at_nanos }
    }

    /// Whether the resource, at time `now_nanos`, is older than
    /// `max_lifetime`. A resource without a tracked timestamp never expires.
    pub fn is_expired_at(&self, now_nanos: u64, max_lifetime: Duration) -> (r: bool)
        ensures
            r == (self.enable_timestamp && self.created_at_nanos is Some && age_nanos(
                self.enable_timestamp,
                self.created_at_nanos,
                now_nanos as nat,
            ) > nanos_of(max_lifetime)),
    {
        if !self.enable_timestamp {
            return false;
        }
        match self.created_at_nanos {
            None => false,
            Some(created) => {
                let age = now_nanos.saturating_sub(created);
                (age as u128) > duration_as_nanos(max_lifetime)
            },
        }
    }

    /// Whether the resource is now older than `max_lifetime`.
    pub fn is_expired(&self, max_lifetime: Duration) -> (r: bool)
        ensures
            !self.enable_timestamp ==> !r,
            self.created_at_nanos is None ==> !r,
    {
        self.is_expired_at(unix_time_nanos(), max_lifetime)
    }

    /// The resource's age at time `now_nanos`; zero without a tracked
    /// timestamp, and zero for a clock that went back.
    pub fn age_at(&self, now_nanos: u64) -> (r: Duration)
        ensures
            nanos_of(r) == age_nanos(self.enable_timestamp, self.created_at_nanos, now_nanos as nat),
    {
        if !self.enable_timestamp {
            return duration_from_nanos(0);
        }
        match self.created_at_nanos {
            None => duration_from_nanos(0),
            Some(created) => duration_from_nanos(now_nanos.saturating_sub(created)),
        }
    }

    /// The resource's age now.
    pub fn age(&self) -> (r: Duration)
        ensures
            !self.enable_timestamp ==> nanos_of(r) == 0,
            self.created_at_nanos is None ==> nanos_of(r) == 0,
    {
        self.age_at(unix_time_nanos())
    }

    /// Whether the timestamp is tracked.
    pub fn has_timestamp(&self) -> (r: bool)
        ensures
            r == self.enable_timestamp,
    {
        self.enable_timestamp
    }

    /// Unwraps the resource.
    pub fn into_connection(self) -> (r: C)
        ensures
            r == self.connection,
    {
        self.connection
    }
}

} // verus!

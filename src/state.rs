//! A snapshot of the pool's counters.

use vstd::prelude::*;

verus! {

/// The pool's counters as read at one moment.
#[derive(Debug, PartialEq, Eq, Structural)]
pub struct State {
    /// Ceiling on resources that exist or are being created.
    pub max_open: u64,
    /// Resources that exist: idle, being validated, or in use.
    pub connections: u64,
    /// Resources held by callers.
    pub in_use: u64,
    /// Resources waiting in the idle queue.
    pub idle: u64,
    /// Acquirers inside the acquisition path.
    pub waits: u64,
    /// Resources being created.
    pub connecting: u64,
    /// Validations in progress.
    pub checking: u64,
}

} // verus!

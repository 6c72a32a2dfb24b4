//! The pool's bookkeeping: the counters that drive admission, the idle queue,
//! and the decisions taken at each point of an acquisition.
//!
//! The acquisition itself (awaiting `connect`, awaiting an idle resource,
//! awaiting `check` under a timeout) is driven from outside; each time it
//! learns something it reports here and is told what to do next.

use crate::state::State;
use std::collections::VecDeque;
use vstd::prelude::*;

verus! {

/// The default ceiling on open resources.
pub const DEFAULT_MAX_OPEN: u64 = 32;

/// How many idle resources one lifetime sweep drops at most.
pub const SWEEP_BATCH: u64 = 20;

/// `x + 1`, held at `u64::MAX`.
pub open spec fn inc(x: nat) -> nat {
    if x < u64::MAX as nat {
        x + 1
    } else {
        x
    }
}

/// `x - 1`, held at zero.
pub open spec fn dec(x: nat) -> nat {
    if x > 0 {
        (x - 1) as nat
    } else {
        0
    }
}

/// `x - k`, held at zero.
pub open spec fn sub_floor(x: nat, k: nat) -> nat {
    if x >= k {
        (x - k) as nat
    } else {
        0
    }
}

pub open spec fn min_nat(a: nat, b: nat) -> nat {
    if a <= b {
        a
    } else {
        b
    }
}

pub open spec fn max_nat(a: nat, b: nat) -> nat {
    if a >= b {
        a
    } else {
        b
    }
}

/// The mathematical state of a pool.
///
/// Besides the counters and the idle queue it records three quantities that
/// no operation reads: `peak`, the largest ceiling ever set; `opened`, the
/// number of `connect` calls ever started; and `retired`, the number of
/// resources dropped plus the number of `connect` calls that ended without
/// one.
pub struct PoolModel<C> {
    pub max_open: nat,
    pub max_idle: nat,
    pub connections: nat,
    pub connecting: nat,
    pub checking: nat,
    pub in_use: nat,
    pub waits: nat,
    pub idle: Seq<C>,
    pub peak: nat,
    pub opened: nat,
    pub retired: nat,
}

impl<C> PoolModel<C> {
    /// A fresh pool: both ceilings at the default, nothing open.
    pub open spec fn initial() -> PoolModel<C> {
        PoolModel {
            max_open: DEFAULT_MAX_OPEN as nat,
            max_idle: DEFAULT_MAX_OPEN as nat,
            connections: 0,
            connecting: 0,
            checking: 0,
            in_use: 0,
            waits: 0,
            idle: Seq::empty(),
            peak: DEFAULT_MAX_OPEN as nat,
            opened: 0,
            retired: 0,
        }
    }

    /// The invariant of the bookkeeping: every existing resource is idle,
    /// being validated or in use; what exists or is being created stays
    /// within the largest ceiling ever set; and every `connect` started is
    /// still running, produced a resource that exists, or was retired.
    pub open spec fn wf(self) -> bool {
        &&& self.connections == self.idle.len() + self.checking + self.in_use
        &&& self.connections + self.connecting <= self.peak
        &&& self.max_open <= self.peak
        &&& self.peak <= u64::MAX as nat
        &&& self.max_idle <= u64::MAX as nat
        &&& self.waits <= u64::MAX as nat
        &&& self.opened == self.connecting + self.connections + self.retired
    }

    /// An acquirer enters the acquisition path.
    pub open spec fn entered(self) -> PoolModel<C> {
        PoolModel { waits: inc(self.waits), ..self }
    }

    /// An acquirer leaves the acquisition path.
    pub open spec fn left(self) -> PoolModel<C> {
        PoolModel { waits: dec(self.waits), ..self }
    }

    /// Whether a new resource may be created now.
    pub open spec fn admits(self) -> bool {
        self.connections + self.connecting < self.max_open
    }

    /// The admission test, and a reservation for `connect` where it passes.
    pub open spec fn reserved(self) -> PoolModel<C> {
        if self.admits() {
            PoolModel { connecting: inc(self.connecting), opened: self.opened + 1, ..self }
        } else {
            self
        }
    }

    /// A reserved `connect` produced `c`, which joins the idle queue.
    pub open spec fn connected(self, c: C) -> PoolModel<C> {
        PoolModel {
            connecting: dec(self.connecting),
            connections: inc(self.connections),
            idle: self.idle.push(c),
            ..self
        }
    }

    /// A reserved `connect` failed or was abandoned.
    pub open spec fn connect_abandoned(self) -> PoolModel<C> {
        PoolModel { connecting: dec(self.connecting), retired: self.retired + 1, ..self }
    }

    /// The oldest idle resource, if any, leaves the queue to be validated.
    pub open spec fn taken(self) -> PoolModel<C> {
        if self.idle.len() > 0 {
            PoolModel {
                idle: self.idle.drop_first(),
                checking: inc(self.checking),
                ..self
            }
        } else {
            self
        }
    }

    /// A validation succeeded: its resource goes to the caller.
    pub open spec fn passed(self) -> PoolModel<C> {
        PoolModel { checking: dec(self.checking), in_use: inc(self.in_use), ..self }
    }

    /// A validation failed, timed out or was abandoned: its resource is
    /// dropped.
    pub open spec fn discarded(self) -> PoolModel<C> {
        PoolModel {
            checking: dec(self.checking),
            connections: dec(self.connections),
            retired: self.retired + 1,
            ..self
        }
    }

    /// A caller gives back `c`: it joins the idle queue if that is under its
    /// ceiling, and is dropped otherwise.
    pub open spec fn recycled(self, c: C) -> PoolModel<C> {
        if self.idle.len() < self.max_idle {
            PoolModel { in_use: dec(self.in_use), idle: self.idle.push(c), ..self }
        } else {
            PoolModel {
                in_use: dec(self.in_use),
                connections: dec(self.connections),
                retired: self.retired + 1,
                ..self
            }
        }
    }

    /// The oldest idle resources are dropped until at most `n` remain.
    pub open spec fn trimmed(self, n: nat) -> PoolModel<C> {
        if self.idle.len() > n {
            let k = (self.idle.len() - n) as nat;
            PoolModel {
                idle: self.idle.subrange(k as int, self.idle.len() as int),
                connections: sub_floor(self.connections, k),
                retired: self.retired + k,
                ..self
            }
        } else {
            self
        }
    }

    /// The ceiling on open resources becomes `n` (0 is ignored); the idle
    /// ceiling is lowered to it and the idle queue trimmed to it.
    pub open spec fn max_open_set(self, n: nat) -> PoolModel<C> {
        if n == 0 {
            self
        } else {
            PoolModel {
                max_open: n,
                max_idle: min_nat(self.max_idle, n),
                peak: max_nat(self.peak, n),
                ..self
            }.trimmed(n)
        }
    }

    /// The idle ceiling becomes `n` and the idle queue is trimmed to it.
    pub open spec fn max_idle_set(self, n: nat) -> PoolModel<C> {
        PoolModel { max_idle: n, ..self }.trimmed(n)
    }
}

/// How a validation ended.
#[derive(Debug, Clone, Copy, PartialEq, Eq, Structural)]
pub enum CheckOutcome {
    /// `check` returned success.
    Passed,
    /// `check` returned an error.
    Failed,
    /// `check` did not finish within the check timeout.
    TimedOut,
}

/// The failures that the pool itself reports.
#[derive(Debug, Clone, Copy, PartialEq, Eq, Structural)]
pub enum PoolError {
    /// The overall deadline of an acquisition passed.
    AcquireTimeout,
    /// One validation did not finish within the check timeout.
    CheckTimeout,
}

impl PoolError {
    /// The text under which the failure reaches the manager's error type.
    pub fn message(&self) -> (r: &'static str)
        ensures
            *self == PoolError::AcquireTimeout ==> r@ == "get_timeout"@,
            *self == PoolError::CheckTimeout ==> r@ == "check_timeout"@,
    {
        proof {
            reveal_strlit("get_timeout");
            reveal_strlit("check_timeout");
        }
        match self {
            PoolError::AcquireTimeout => "get_timeout",
            PoolError::CheckTimeout => "check_timeout",
        }
    }
}

/// What an acquisition does after a validation.
#[derive(Debug, Clone, Copy, PartialEq, Eq, Structural)]
pub enum AfterCheck {
    /// Hand the validated resource to the caller.
    Deliver,
    /// The resource was dropped; go round the loop again.
    Retry,
    /// The resource was dropped; the acquisition fails.
    Fail(PoolError),
}

/// The next step of an acquisition after a validation ended with `outcome`.
pub open spec fn after_check(outcome: CheckOutcome) -> AfterCheck {
    match outcome {
        CheckOutcome::Passed => AfterCheck::Deliver,
        CheckOutcome::Failed => AfterCheck::Retry,
        CheckOutcome::TimedOut => AfterCheck::Fail(PoolError::CheckTimeout),
    }
}

/// What an acquisition learned since its last step.
#[derive(Debug)]
pub enum AcquireEvent<C> {
    /// The acquisition has just entered.
    Start,
    /// The `connect` it was told to make produced `C`.
    Connected(C),
    /// The `connect` it was told to make failed.
    ConnectFailed,
    /// It was woken while waiting for an idle resource.
    Woken,
    /// The validation it was told to run ended so.
    Checked(CheckOutcome),
}

/// What an acquisition does next.
#[derive(Debug)]
pub enum AcquireAction<C> {
    /// Call `connect`; a reservation is held for it.
    Connect,
    /// Wait until an idle resource may be there.
    Wait,
    /// Validate `C`, taken from the idle queue.
    Check(C),
    /// Hand the validated resource to the caller.
    Deliver,
    /// Fail with the error that `connect` returned.
    FailConnect,
    /// Fail with the pool's own error.
    Fail(PoolError),
}

/// Take the oldest idle resource for validation, or wait for one.
pub open spec fn receive_next<C>(s: PoolModel<C>) -> (PoolModel<C>, AcquireAction<C>) {
    if s.idle.len() > 0 {
        (s.taken(), AcquireAction::Check(s.idle[0]))
    } else {
        (s, AcquireAction::Wait)
    }
}

/// Reserve a `connect` where admission allows, else go for an idle resource.
pub open spec fn admit_next<C>(s: PoolModel<C>) -> (PoolModel<C>, AcquireAction<C>) {
    if s.admits() {
        (s.reserved(), AcquireAction::Connect)
    } else {
        receive_next(s)
    }
}

/// The next state and action of an acquisition on `ev`.
pub open spec fn acquire_next<C>(s: PoolModel<C>, ev: AcquireEvent<C>) -> (
    PoolModel<C>,
    AcquireAction<C>,
) {
    match ev {
        AcquireEvent::Start => admit_next(s),
        AcquireEvent::Connected(c) => receive_next(s.connected(c)),
        AcquireEvent::ConnectFailed => (s.connect_abandoned(), AcquireAction::FailConnect),
        AcquireEvent::Woken => receive_next(s),
        AcquireEvent::Checked(o) => match o {
            CheckOutcome::Passed => (s.passed(), AcquireAction::Deliver),
            CheckOutcome::Failed => admit_next(s.discarded()),
            CheckOutcome::TimedOut => (
                s.discarded(),
                AcquireAction::Fail(PoolError::CheckTimeout),
            ),
        },
    }
}

/// The bookkeeping of one pool: its ceilings, counters and idle queue.
pub struct PoolCore<C> {
    max_open: u64,
    max_idle: u64,
    connections: u64,
    connecting: u64,
    checking: u64,
    in_use: u64,
    waits: u64,
    idle: VecDeque<C>,
    peak: Ghost<nat>,
    opened: Ghost<nat>,
    retired: Ghost<nat>,
}

impl<C> View for PoolCore<C> {
    type V = PoolModel<C>;

    closed spec fn view(&self) -> PoolModel<C> {
        PoolModel {
            max_open: self.max_open as nat,
            max_idle: self.max_idle as nat,
            connections: self.connections as nat,
            connecting: self.connecting as nat,
            checking: self.checking as nat,
            in_use: self.in_use as nat,
            waits: self.waits as nat,
            idle: self.idle@,
            peak: self.peak@,
            opened: self.opened@,
            retired: self.retired@,
        }
    }
}

impl<C> PoolCore<C> {
    /// A pool with both ceilings at 32 and nothing open.
    pub fn new() -> (r: PoolCore<C>)
        ensures
            r@ == PoolModel::<C>::initial(),
            r@.wf(),
    {
        PoolCore {
            max_open: DEFAULT_MAX_OPEN,
            max_idle: DEFAULT_MAX_OPEN,
            connections: 0,
            connecting: 0,
            checking: 0,
            in_use: 0,
            waits: 0,
            idle: VecDeque::new(),
            peak: Ghost(DEFAULT_MAX_OPEN as nat),
            opened: Ghost(0),
            retired: Ghost(0),
        }
    }

    /// The counters, with `idle` the length of the idle queue.
    pub fn state(&self) -> (r: State)
        ensures
            r.max_open as nat == self@.max_open,
            r.connections as nat == self@.connections,
            r.in_use as nat == self@.in_use,
            r.idle as nat == self@.idle.len(),
            r.waits as nat == self@.waits,
            r.connecting as nat == self@.connecting,
            r.checking as nat == self@.checking,
    {
        State {
            max_open: self.max_open,
            connections: self.connections,
            in_use: self.in_use,
            idle: self.idle.len() as u64,
            waits: self.waits,
            connecting: self.connecting,
            checking: self.checking,
        }
    }

    /// The ceiling on open resources.
    pub fn get_max_open(&self) -> (r: u64)
        ensures
            r as nat == self@.max_open,
    {
        self.max_open
    }

    /// The ceiling on idle resources.
    pub fn get_max_idle_conns(&self) -> (r: u64)
        ensures
            r as nat == self@.max_idle,
    {
        self.max_idle
    }

    /// An acquirer enters the acquisition path.
    pub fn enter(&mut self)
        ensures
            final(self)@ == old(self)@.entered(),
    {
        self.waits = self.waits.saturating_add(1);
    }

    /// An acquirer leaves the acquisition path, on whatever exit.
    pub fn leave(&mut self)
        ensures
            final(self)@ == old(self)@.left(),
    {
        self.waits = self.waits.saturating_sub(1);
    }

    /// The admission test: where what exists or is being created is under
    /// the ceiling, reserves a `connect` and returns `true`.
    pub fn try_reserve(&mut self) -> (admitted: bool)
        ensures
            admitted == old(self)@.admits(),
            final(self)@ == old(self)@.reserved(),
    {
        if self.connections < self.max_open && self.connecting < self.max_open - self.connections {
            self.connecting = self.connecting.saturating_add(1);
            self.opened = Ghost(self.opened@ + 1);
            true
        } else {
            false
        }
    }

    /// A reserved `connect` ended: with a resource, which joins the idle
    /// queue, or without one. Returns whether the acquisition goes on to wait
    /// for an idle resource; without one it fails with the manager's error.
    pub fn connect_finished(&mut self, outcome: Option<C>) -> (proceed: bool)
        ensures
            proceed == (outcome is Some),
            final(self)@ == match outcome {
                Some(c) => old(self)@.connected(c),
                None => old(self)@.connect_abandoned(),
            },
    {
        self.connecting = self.connecting.saturating_sub(1);
        match outcome {
            Some(c) => {
                self.idle.push_back(c);
                self.connections = self.connections.saturating_add(1);
                true
            },
            None => {
                self.retired = Ghost(self.retired@ + 1);
                false
            },
        }
    }

    /// Takes the oldest idle resource, if any, for validation.
    pub fn take_idle(&mut self) -> (r: Option<C>)
        ensures
            final(self)@ == old(self)@.taken(),
            old(self)@.idle.len() == 0 <==> (r is None),
            r is Some ==> r.unwrap() == old(self)@.idle[0],
    {
        let r = self.idle.pop_front();
        if r.is_some() {
            self.checking = self.checking.saturating_add(1);
        }
        r
    }

    /// A validation ended with `outcome`. Only a passed validation hands the
    /// resource out; otherwise the resource is dropped, and the acquisition
    /// goes round again after a failure and fails after a timeout.
    pub fn check_finished(&mut self, outcome: CheckOutcome) -> (next: AfterCheck)
        ensures
            next == after_check(outcome),
            next == AfterCheck::Deliver <==> outcome == CheckOutcome::Passed,
            final(self)@ == if outcome == CheckOutcome::Passed {
                old(self)@.passed()
            } else {
                old(self)@.discarded()
            },
    {
        self.checking = self.checking.saturating_sub(1);
        match outcome {
            CheckOutcome::Passed => {
                self.in_use = self.in_use.saturating_add(1);
                AfterCheck::Deliver
            },
            CheckOutcome::Failed => {
                self.discard();
                AfterCheck::Retry
            },
            CheckOutcome::TimedOut => {
                self.discard();
                AfterCheck::Fail(PoolError::CheckTimeout)
            },
        }
    }

    /// A validation was abandoned before it ended: its resource is dropped.
    pub fn abandon_check(&mut self)
        ensures
            final(self)@ == old(self)@.discarded(),
    {
        self.checking = self.checking.saturating_sub(1);
        self.discard();
    }

    fn discard(&mut self)
        ensures
            final(self)@ == (PoolModel {
                connections: dec(old(self)@.connections),
                retired: old(self)@.retired + 1,
                ..old(self)@
            }),
    {
        self.connections = self.connections.saturating_sub(1);
        self.retired = Ghost(self.retired@ + 1);
    }

    /// A caller gives back a validated resource: it joins the idle queue if
    /// that is under its ceiling, and is dropped otherwise.
    pub fn recycle(&mut self, c: C)
        ensures
            final(self)@ == old(self)@.recycled(c),
    {
        self.in_use = self.in_use.saturating_sub(1);
        if (self.idle.len() as u64) < self.max_idle {
            self.idle.push_back(c);
        } else {
            self.discard();
        }
    }

    /// Drops the oldest idle resources until at most `n` remain.
    fn trim_idle(&mut self, n: u64)
        ensures
            final(self)@ == old(self)@.trimmed(n as nat),
    {
        let ghost k = if old(self)@.idle.len() > n { (old(self)@.idle.len() - n) as nat } else { 0 };
        let ghost start = old(self)@;
        while self.idle.len() as u64 > n
            invariant
                self@.idle.len() >= n || self@.idle.len() == start.idle.len(),
                self@.idle.len() <= start.idle.len(),
                self@.idle == start.idle.subrange(
                    start.idle.len() - self@.idle.len(),
                    start.idle.len() as int,
                ),
                self@.connections == sub_floor(
                    start.connections,
                    (start.idle.len() - self@.idle.len()) as nat,
                ),
                self@.retired == start.retired + (start.idle.len() - self@.idle.len()),
                self@ == (PoolModel {
                    idle: self@.idle,
                    connections: self@.connections,
                    retired: self@.retired,
                    ..start
                }),
            decreases self@.idle.len(),
        {
            let _ = self.idle.pop_front();
            self.connections = self.connections.saturating_sub(1);
            self.retired = Ghost(self.retired@ + 1);
        }
        proof {
            if start.idle.len() > n {
                assert(self@.idle.len() == n);
            } else {
                assert(self@.idle =~= start.idle);
            }
        }
    }

    /// Sets the ceiling on open resources to `n`; 0 is ignored. The idle
    /// ceiling is lowered to `n` where it is above, and idle resources beyond
    /// `n` are dropped. Resources in use are left alone.
    pub fn set_max_open(&mut self, n: u64)
        ensures
            final(self)@ == old(self)@.max_open_set(n as nat),
    {
        if n == 0 {
            return;
        }
        self.max_open = n;
        if self.max_idle > n {
            self.max_idle = n;
        }
        self.peak = Ghost(max_nat(self.peak@, n as nat));
        self.trim_idle(n);
    }

    fn receive(&mut self) -> (r: AcquireAction<C>)
        ensures
            (final(self)@, r) == receive_next(old(self)@),
    {
        match self.take_idle() {
            Some(c) => AcquireAction::Check(c),
            None => AcquireAction::Wait,
        }
    }

    fn reserve_or_receive(&mut self) -> (r: AcquireAction<C>)
        ensures
            (final(self)@, r) == admit_next(old(self)@),
    {
        if self.try_reserve() {
            AcquireAction::Connect
        } else {
            self.receive()
        }
    }

    /// One step of an acquisition: takes what it learned and says what it
    /// does next. Admission comes first, then the oldest idle resource;
    /// after a failed validation the loop starts over; only a passed
    /// validation delivers.
    pub fn acquire_step(&mut self, ev: AcquireEvent<C>) -> (r: AcquireAction<C>)
        ensures
            (final(self)@, r) == acquire_next(old(self)@, ev),
    {
        match ev {
            AcquireEvent::Start => self.reserve_or_receive(),
            AcquireEvent::Connected(c) => {
                self.connect_finished(Some(c));
                self.receive()
            },
            AcquireEvent::ConnectFailed => {
                self.connect_finished(None);
                AcquireAction::FailConnect
            },
            AcquireEvent::Woken => self.receive(),
            AcquireEvent::Checked(o) => match self.check_finished(o) {
                AfterCheck::Deliver => AcquireAction::Deliver,
                AfterCheck::Retry => self.reserve_or_receive(),
                AfterCheck::Fail(e) => AcquireAction::Fail(e),
            },
        }
    }

    /// Drops the oldest idle resources, at most `limit` of them, and returns
    /// how many were dropped.
    pub fn evict_oldest_idle(&mut self, limit: u64) -> (evicted: u64)
        ensures
            evicted as nat == min_nat(old(self)@.idle.len(), limit as nat),
            final(self)@ == old(self)@.trimmed((old(self)@.idle.len() - evicted) as nat),
    {
        let len = self.idle.len() as u64;
        let evicted = if len < limit {
            len
        } else {
            limit
        };
        self.trim_idle(len - evicted);
        evicted
    }

    /// Sets the idle ceiling to `n` and drops idle resources beyond it.
    pub fn set_max_idle_conns(&mut self, n: u64)
        ensures
            final(self)@ == old(self)@.max_idle_set(n as nat),
    {
        self.max_idle = n;
        self.trim_idle(n);
    }
}

} // verus!

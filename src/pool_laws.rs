//! What holds of the bookkeeping over every sequence of operations.

use crate::pool_core::{acquire_next, max_nat, min_nat, AcquireAction, AcquireEvent, CheckOutcome, PoolModel};
use vstd::prelude::*;

verus! {

/// One operation on the bookkeeping.
pub enum Op<C> {
    Enter,
    Leave,
    Reserve,
    Connected(C),
    ConnectAbandoned,
    Take,
    Passed,
    Discarded,
    Recycled(C),
    SetMaxOpen(nat),
    SetMaxIdle(nat),
}

impl<C> PoolModel<C> {
    /// The state after `op`.
    pub open spec fn apply(self, op: Op<C>) -> PoolModel<C> {
        match op {
            Op::Enter => self.entered(),
            Op::Leave => self.left(),
            Op::Reserve => self.reserved(),
            Op::Connected(c) => self.connected(c),
            Op::ConnectAbandoned => self.connect_abandoned(),
            Op::Take => self.taken(),
            Op::Passed => self.passed(),
            Op::Discarded => self.discarded(),
            Op::Recycled(c) => self.recycled(c),
            Op::SetMaxOpen(n) => self.max_open_set(n),
            Op::SetMaxIdle(n) => self.max_idle_set(n),
        }
    }

    /// Whether `op` can happen now: a `connect` ends only where one was
    /// reserved, a validation ends only where one runs, a resource comes back
    /// only where one is in use, and at most `u64::MAX` acquirers wait.
    pub open spec fn allows(self, op: Op<C>) -> bool {
        match op {
            Op::Enter => self.waits < u64::MAX as nat,
            Op::Connected(_) => self.connecting > 0,
            Op::ConnectAbandoned => self.connecting > 0,
            Op::Passed => self.checking > 0,
            Op::Discarded => self.checking > 0,
            Op::Recycled(_) => self.in_use > 0,
            Op::SetMaxOpen(n) => n <= u64::MAX as nat,
            Op::SetMaxIdle(n) => n <= u64::MAX as nat,
            _ => true,
        }
    }
}

/// The state after the operations `ops`, in order.
pub open spec fn run<C>(s: PoolModel<C>, ops: Seq<Op<C>>) -> PoolModel<C>
    decreases ops.len(),
{
    if ops.len() == 0 {
        s
    } else {
        run(s, ops.drop_last()).apply(ops.last())
    }
}

/// Each of `ops` can happen at its turn.
pub open spec fn legal_run<C>(s: PoolModel<C>, ops: Seq<Op<C>>) -> bool
    decreases ops.len(),
{
    if ops.len() == 0 {
        true
    } else {
        legal_run(s, ops.drop_last()) && run(s, ops.drop_last()).allows(ops.last())
    }
}

proof fn lemma_trim_keeps_wf<C>(s: PoolModel<C>, n: nat)
    requires
        s.wf(),
    ensures
        s.trimmed(n).wf(),
        s.trimmed(n).idle.len() == min_nat(s.idle.len(), n),
        s.trimmed(n).in_use == s.in_use,
        s.trimmed(n).checking == s.checking,
        s.trimmed(n).connecting == s.connecting,
        s.trimmed(n).waits == s.waits,
        s.trimmed(n).max_open == s.max_open,
        s.trimmed(n).max_idle == s.max_idle,
{
}

/// Every operation that can happen keeps the invariant.
pub proof fn lemma_step_keeps_wf<C>(s: PoolModel<C>, op: Op<C>)
    requires
        s.wf(),
        s.allows(op),
    ensures
        s.apply(op).wf(),
{
    match op {
        Op::SetMaxOpen(n) => {
            if n > 0 {
                let t = PoolModel {
                    max_open: n,
                    max_idle: min_nat(s.max_idle, n),
                    peak: max_nat(s.peak, n),
                    ..s
                };
                lemma_trim_keeps_wf(t, n);
            }
        },
        Op::SetMaxIdle(n) => {
            lemma_trim_keeps_wf(PoolModel { max_idle: n, ..s }, n);
        },
        _ => {},
    }
}

/// Every state reached from a fresh pool by operations that could happen
/// satisfies the invariant.
pub proof fn lemma_run_keeps_wf<C>(ops: Seq<Op<C>>)
    requires
        legal_run(PoolModel::<C>::initial(), ops),
    ensures
        run(PoolModel::<C>::initial(), ops).wf(),
    decreases ops.len(),
{
    if ops.len() > 0 {
        lemma_run_keeps_wf(ops.drop_last());
        lemma_step_keeps_wf(run(PoolModel::<C>::initial(), ops.drop_last()), ops.last());
    }
}

/// At every point reached from a fresh pool: resources in use and idle are
/// among those that exist, and what exists or is being created stays within
/// the largest ceiling ever set; so where the ceiling was never lowered, what
/// exists stays within it.
pub proof fn lemma_counts_bounded<C>(ops: Seq<Op<C>>)
    requires
        legal_run(PoolModel::<C>::initial(), ops),
    ensures
        ({
            let t = run(PoolModel::<C>::initial(), ops);
            &&& t.in_use + t.idle.len() <= t.connections
            &&& t.connections + t.connecting <= t.peak
            &&& t.max_open == t.peak ==> t.connections + t.connecting <= t.max_open
        }),
{
    lemma_run_keeps_wf(ops);
}

/// At every point reached from a fresh pool, the `connect` calls ever
/// started number at most the largest ceiling ever set plus the resources
/// dropped and the `connect` calls that ended without one.
pub proof fn lemma_connects_bounded<C>(ops: Seq<Op<C>>)
    requires
        legal_run(PoolModel::<C>::initial(), ops),
    ensures
        ({
            let t = run(PoolModel::<C>::initial(), ops);
            t.opened <= t.peak + t.retired
        }),
{
    lemma_run_keeps_wf(ops);
}

/// After the idle ceiling is set to `n`, at most `n` resources are idle.
pub proof fn lemma_max_idle_set_bounds_idle<C>(s: PoolModel<C>, n: nat)
    ensures
        s.max_idle_set(n).idle.len() <= s.max_idle_set(n).max_idle,
{
}

/// After the ceiling on open resources is set, no more resources are idle
/// than the idle ceiling allows, where that held before or the new ceiling
/// does not exceed the idle ceiling. (The queue is trimmed to the new
/// ceiling, not to the idle ceiling.)
pub proof fn lemma_max_open_set_bounds_idle<C>(s: PoolModel<C>, n: nat)
    requires
        s.idle.len() <= s.max_idle || (0 < n && n <= s.max_idle),
    ensures
        s.max_open_set(n).idle.len() <= s.max_open_set(n).max_idle,
{
}

/// Setting the ceiling on open resources to 0 changes nothing.
pub proof fn lemma_zero_max_open_ignored<C>(s: PoolModel<C>)
    ensures
        s.max_open_set(0) == s,
{
}

/// Lowering the ceiling on open resources leaves resources in use and those
/// being validated or created alone; only idle ones beyond the new ceiling
/// are dropped.
pub proof fn lemma_lowering_max_open_spares_holders<C>(s: PoolModel<C>, n: nat)
    requires
        s.wf(),
        0 < n <= u64::MAX as nat,
    ensures
        ({
            let t = s.max_open_set(n);
            &&& t.wf()
            &&& t.in_use == s.in_use
            &&& t.checking == s.checking
            &&& t.connecting == s.connecting
            &&& t.max_open == n
            &&& t.idle.len() == min_nat(s.idle.len(), n)
        }),
{
    lemma_step_keeps_wf(s, Op::SetMaxOpen(n));
    let t = PoolModel { max_open: n, max_idle: min_nat(s.max_idle, n), peak: max_nat(s.peak, n), ..s };
    lemma_trim_keeps_wf(t, n);
}

/// An acquisition delivers a resource only on the step that reports a passed
/// validation of it, and that step counts it in use.
pub proof fn lemma_only_passed_delivers<C>(s: PoolModel<C>, ev: AcquireEvent<C>)
    ensures
        acquire_next(s, ev).1 is Deliver <==> ev == AcquireEvent::<C>::Checked(
            CheckOutcome::Passed,
        ),
        acquire_next(s, ev).1 is Deliver ==> acquire_next(s, ev).0 == s.passed(),
{
}

/// Whether `ev` answers `action`: a `connect` ends, a wait is woken, a
/// validation ends. Nothing answers an action that ends the acquisition.
pub open spec fn answers<C>(action: AcquireAction<C>, ev: AcquireEvent<C>) -> bool {
    match action {
        AcquireAction::Connect => ev is Connected || ev is ConnectFailed,
        AcquireAction::Wait => ev is Woken,
        AcquireAction::Check(_) => ev is Checked,
        _ => false,
    }
}

/// The state and last action after an acquirer enters and starts, then
/// answers with `evs`.
pub open spec fn acquire_trace<C>(s: PoolModel<C>, evs: Seq<AcquireEvent<C>>) -> (
    PoolModel<C>,
    AcquireAction<C>,
)
    decreases evs.len(),
{
    if evs.len() == 0 {
        acquire_next(s.entered(), AcquireEvent::Start)
    } else {
        let (t, a) = acquire_trace(s, evs.drop_last());
        acquire_next(t, evs.last())
    }
}

/// Each of `evs` answers the action before it.
pub open spec fn legal_trace<C>(s: PoolModel<C>, evs: Seq<AcquireEvent<C>>) -> bool
    decreases evs.len(),
{
    if evs.len() == 0 {
        true
    } else {
        legal_trace(s, evs.drop_last()) && answers(acquire_trace(s, evs.drop_last()).1, evs.last())
    }
}

/// The acquisition stops after `action`, by cancellation or by its own end:
/// a reserved `connect` or a running validation is given up, and it leaves.
pub open spec fn stopped<C>(t: PoolModel<C>, action: AcquireAction<C>) -> PoolModel<C> {
    match action {
        AcquireAction::Connect => t.connect_abandoned().left(),
        AcquireAction::Check(_) => t.discarded().left(),
        _ => t.left(),
    }
}

proof fn lemma_trace_accounts<C>(s: PoolModel<C>, evs: Seq<AcquireEvent<C>>)
    requires
        s.wf(),
        s.waits < u64::MAX as nat,
        legal_trace(s, evs),
    ensures
        ({
            let (t, a) = acquire_trace(s, evs);
            &&& t.wf()
            &&& t.in_use == s.in_use + if a is Deliver {
                1nat
            } else {
                0nat
            }
            &&& t.waits == s.waits + 1
            &&& t.connecting == s.connecting + if a is Connect {
                1nat
            } else {
                0nat
            }
            &&& t.checking == s.checking + if a is Check {
                1nat
            } else {
                0nat
            }
        }),
    decreases evs.len(),
{
    if evs.len() > 0 {
        lemma_trace_accounts(s, evs.drop_last());
    }
}

/// Stopping an acquisition at any point before it delivers (cancelling it, or
/// its own failure) leaves the resources in use, the `connect` calls and
/// validations in progress, and the waiting acquirers as they were before it
/// began.
pub proof fn lemma_cancel_restores_counters<C>(s: PoolModel<C>, evs: Seq<AcquireEvent<C>>)
    requires
        s.wf(),
        s.waits < u64::MAX as nat,
        legal_trace(s, evs),
        !(acquire_trace(s, evs).1 is Deliver),
    ensures
        ({
            let (t, a) = acquire_trace(s, evs);
            let u = stopped(t, a);
            &&& u.in_use == s.in_use
            &&& u.connecting == s.connecting
            &&& u.checking == s.checking
            &&& u.waits == s.waits
        }),
{
    lemma_trace_accounts(s, evs);
}

/// An acquisition that opens a new resource, followed at once by giving the
/// resource back, leaves the resources in use as they were and one more
/// resource idle, where the idle queue is under its ceiling.
pub proof fn lemma_acquire_release_round_trip<C>(s: PoolModel<C>, c: C)
    requires
        s.wf(),
        s.waits < u64::MAX as nat,
        s.admits(),
        s.idle.len() < s.max_idle,
    ensures
        ({
            let evs = seq![
                AcquireEvent::Connected(c),
                AcquireEvent::Checked(CheckOutcome::Passed),
            ];
            let (t, a) = acquire_trace(s, evs);
            let u = t.left().recycled(s.idle.push(c)[0]);
            &&& legal_trace(s, evs)
            &&& a is Deliver
            &&& u.in_use == s.in_use
            &&& u.idle.len() == s.idle.len() + 1
            &&& u.connections == s.connections + 1
            &&& u.waits == s.waits
            &&& u.wf()
        }),
{
    let evs = seq![AcquireEvent::Connected(c), AcquireEvent::Checked(CheckOutcome::Passed)];
    let e1 = evs.drop_last();
    assert(e1.drop_last() =~= Seq::<AcquireEvent<C>>::empty());
    assert(e1.last() == AcquireEvent::Connected(c));
    assert(evs.last() == AcquireEvent::<C>::Checked(CheckOutcome::Passed));
    let t0 = s.entered().reserved();
    assert(acquire_trace(s, e1.drop_last()) == (t0, AcquireAction::<C>::Connect));
    let t1 = t0.connected(c).taken();
    assert(t0.connected(c).idle == s.idle.push(c));
    assert(acquire_trace(s, e1) == (t1, AcquireAction::Check(s.idle.push(c)[0])));
    assert(acquire_trace(s, evs) == (t1.passed(), AcquireAction::<C>::Deliver));
    assert(legal_trace(s, e1.drop_last()));
    assert(answers(AcquireAction::<C>::Connect, e1.last()));
    assert(legal_trace(s, e1));
    assert(answers(AcquireAction::Check(s.idle.push(c)[0]), evs.last()));
}

} // verus!

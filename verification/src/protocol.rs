//! The acquisition/release protocol of the lock as an abstract state
//! machine, and the proofs that hold of every run of it.
//!
//! The state is the exclusivity flag together with an auxiliary count of
//! live guards: the count a concurrent tester would keep, incremented on
//! each successful claim and decremented on each release. Any number of
//! threads may interleave claim attempts and releases; a run is an arbitrary
//! sequence of such events. The central theorem, [`lemma_mutual_exclusion`],
//! says that in every run the count never exceeds one: at most one guard
//! exists at any instant.

use vstd::prelude::*;

verus! {

/// One event at the lock's exclusivity flag, performed by some thread.
pub enum LockEvent {
    /// A compare-and-set attempt that observed the flag clear and claimed
    /// it: the attempting thread becomes the holder.
    AcquireSuccess,
    /// A compare-and-set attempt that did not claim the flag, whether it
    /// observed the flag held or failed spuriously: the thread spins and
    /// will retry.
    AcquireFailure,
    /// The holder gives the lock back: its guard is destroyed and the flag
    /// cleared.
    Release,
}

/// The abstract lock state: the exclusivity flag and the count of live
/// guards.
pub struct LockState {
    pub locked: bool,
    pub holders: nat,
}

/// The state of a freshly created lock: flag clear, no guard.
pub open spec fn init() -> LockState {
    LockState { locked: false, holders: 0 }
}

/// Whether `e` can happen in state `s`. A successful claim needs the flag
/// clear; a release needs a holder; a failed attempt can happen at any time,
/// since a weak compare-and-set may fail spuriously even on a clear flag.
pub open spec fn enabled(s: LockState, e: LockEvent) -> bool {
    match e {
        LockEvent::AcquireSuccess => !s.locked,
        LockEvent::AcquireFailure => true,
        LockEvent::Release => s.locked,
    }
}

/// The state after `e` happens in `s`.
pub open spec fn step(s: LockState, e: LockEvent) -> LockState {
    match e {
        LockEvent::AcquireSuccess => LockState { locked: true, holders: s.holders + 1 },
        LockEvent::AcquireFailure => s,
        LockEvent::Release => LockState { locked: false, holders: (s.holders - 1) as nat },
    }
}

/// The inductive invariant of the protocol: the flag is set iff exactly one
/// guard is live, and the guard count never exceeds one.
pub open spec fn valid(s: LockState) -> bool {
    &&& s.holders <= 1
    &&& (s.locked <==> s.holders == 1)
}

/// The state reached by running a sequence of events from the initial
/// state. An event that is not enabled changes nothing: a claim attempt on a
/// held flag, like a spurious failure, leaves the lock as it was.
pub open spec fn run(events: Seq<LockEvent>) -> LockState
    decreases events.len(),
{
    if events.len() == 0 {
        init()
    } else {
        let prior = run(events.drop_last());
        if enabled(prior, events.last()) {
            step(prior, events.last())
        } else {
            prior
        }
    }
}

/// A fresh lock satisfies the invariant.
pub proof fn lemma_init_valid()
    ensures
        valid(init()),
{
}

/// Each enabled event preserves the invariant: a claim of a clear flag
/// raises the count to one, a release lowers it to zero, a failed attempt
/// changes nothing.
pub proof fn lemma_step_preserves_valid(s: LockState, e: LockEvent)
    requires
        valid(s),
        enabled(s, e),
    ensures
        valid(step(s, e)),
{
}

/// Mutual exclusion: however any number of threads interleave their claim
/// attempts and releases, every state a run reaches satisfies the invariant;
/// in particular the count of live guards never exceeds one. At most one
/// guard for the lock exists at any instant.
pub proof fn lemma_mutual_exclusion(events: Seq<LockEvent>)
    ensures
        valid(run(events)),
        run(events).holders <= 1,
    decreases events.len(),
{
    if events.len() == 0 {
        lemma_init_valid();
    } else {
        lemma_mutual_exclusion(events.drop_last());
        let prior = run(events.drop_last());
        if enabled(prior, events.last()) {
            lemma_step_preserves_valid(prior, events.last());
        }
    }
}

/// Acquisition succeeds at once whenever no guard is live: with the count at
/// zero the flag is clear, a claim is enabled, and it makes the claimant the
/// sole holder.
pub proof fn lemma_free_lock_acquirable(s: LockState)
    requires
        valid(s),
        s.holders == 0,
    ensures
        enabled(s, LockEvent::AcquireSuccess),
        step(s, LockEvent::AcquireSuccess).holders == 1,
        valid(step(s, LockEvent::AcquireSuccess)),
{
}

/// A held lock can always be released, and its release enables the next
/// claim: whenever the holder gives the lock back in finite time, a waiter
/// that then attempts the claim can succeed. This is the step on which
/// eventual acquisition under well-behaved holders rests; that every waiter
/// in fact wins eventually is a fairness assumption on the scheduler, not a
/// property of the lock, which orders its waiters in no way.
pub proof fn lemma_release_enables_acquire(s: LockState)
    requires
        valid(s),
        s.holders == 1,
    ensures
        enabled(s, LockEvent::Release),
        step(s, LockEvent::Release).holders == 0,
        enabled(step(s, LockEvent::Release), LockEvent::AcquireSuccess),
{
}

} // verus!

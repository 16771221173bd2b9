//! A minimal mutual-exclusion primitive: a lock guarding a single owned
//! value, with scoped access through a guard.
//!
//! The lock keeps an exclusivity flag beside the protected value. A claim of
//! the flag checks the value out into a [`MutexGuard`]; releasing the guard
//! clears the flag and checks the value back in. The flag is true exactly
//! while a guard for the lock exists, and at most one guard can exist at a
//! time.
//!
//! Every function here terminates, so the unbounded busy-wait of a spinning
//! waiter is not itself an operation of the API: a waiter repeats the
//! non-blocking claim attempt [`Mutex::try_lock`], and [`Mutex::lock`]
//! demands up front the condition under which a claim must succeed. The
//! [`protocol`] module states the concurrent acquisition/release protocol —
//! any number of threads interleaving claim attempts, spins and releases —
//! and proves mutual exclusion over every run of it.

use vstd::prelude::*;

pub mod protocol;

verus! {

/// A lock that owns a protected value and an exclusivity flag.
///
/// The flag is true iff the value is currently checked out through a
/// [`MutexGuard`]. A successful claim of the flag moves the value into the
/// guard, so no second guard can be produced until the first is given back
/// through [`Mutex::unlock`].
pub struct Mutex<T> {
    locked: bool,
    value: Option<T>,
}

/// A token proving that exclusivity over a [`Mutex`] was acquired.
///
/// The guard owns the protected value for as long as it lives; it grants
/// read and write access, and handing it back to [`Mutex::unlock`] is the
/// sole release mechanism: one release per successful acquisition.
pub struct MutexGuard<T> {
    value: T,
}

impl<T> View for MutexGuard<T> {
    type V = T;

    /// The protected value as the guard currently holds it.
    closed spec fn view(&self) -> T {
        self.value
    }
}

impl<T> Mutex<T> {
    /// The exclusivity flag: true iff some guard currently holds access.
    pub closed spec fn locked(self) -> bool {
        self.locked
    }

    /// The value the lock holds; `None` while it is checked out.
    pub closed spec fn stored(self) -> Option<T> {
        self.value
    }

    /// How many guards for this lock exist: the auxiliary count that the
    /// exclusivity flag stands for.
    pub open spec fn holders(self) -> nat {
        if self.locked() {
            1nat
        } else {
            0nat
        }
    }

    /// The lock's invariant: the flag is true iff the value is checked out.
    pub open spec fn wf(self) -> bool {
        self.locked() <==> self.stored() is None
    }

    /// The lock as a state of the acquisition/release protocol
    /// (see [`protocol`]): its flag, and the guard count the flag stands
    /// for.
    pub open spec fn abs(self) -> protocol::LockState {
        protocol::LockState { locked: self.locked(), holders: self.holders() }
    }

    /// Creates an unlocked lock storing `value`. No failure conditions.
    pub fn new(value: T) -> (m: Mutex<T>)
        ensures
            m.wf(),
            !m.locked(),
            m.stored() == Some(value),
            m.abs() == protocol::init(),
    {
        Mutex { locked: false, value: Some(value) }
    }

    /// One atomic compare-and-set attempt on the exclusivity flag.
    ///
    /// If the lock is free, the flag is claimed and the value checked out
    /// into the returned guard; if some guard already holds access, nothing
    /// changes and `None` comes back. This is the non-blocking step a
    /// spinning waiter repeats until it succeeds.
    pub fn try_lock(&mut self) -> (r: Option<MutexGuard<T>>)
        requires
            old(self).wf(),
        ensures
            final(self).wf(),
            old(self).locked() ==> r is None && *final(self) == *old(self),
            !old(self).locked() ==> final(self).locked() && r is Some && (r->0)@ == (old(
                self,
            ).stored())->0,
            r is Some ==> final(self).abs() == protocol::step(
                old(self).abs(),
                protocol::LockEvent::AcquireSuccess,
            ) && protocol::enabled(old(self).abs(), protocol::LockEvent::AcquireSuccess),
            r is None ==> final(self).abs() == protocol::step(
                old(self).abs(),
                protocol::LockEvent::AcquireFailure,
            ),
    {
        if self.locked {
            None
        } else {
            self.locked = true;
            let v = self.value.take();
            Some(MutexGuard { value: v.unwrap() })
        }
    }

    /// Acquires the lock: claims the exclusivity flag and returns the guard
    /// that proves it, holding the stored value.
    ///
    /// Acquisition is owed exactly when no guard is outstanding, which the
    /// precondition demands; there is no reentrancy, and a claim attempt
    /// while a guard exists can only fail (see [`Mutex::try_lock`]), never
    /// hand out a second guard.
    pub fn lock(&mut self) -> (guard: MutexGuard<T>)
        requires
            old(self).wf(),
            !old(self).locked(),
        ensures
            final(self).wf(),
            final(self).locked(),
            guard@ == (old(self).stored())->0,
            final(self).abs() == protocol::step(
                old(self).abs(),
                protocol::LockEvent::AcquireSuccess,
            ),
            protocol::enabled(old(self).abs(), protocol::LockEvent::AcquireSuccess),
    {
        let r = self.try_lock();
        r.unwrap()
    }

    /// Releases the lock: checks the guard's value back in and clears the
    /// exclusivity flag, making the lock acquirable again.
    ///
    /// Consuming the guard is the sole release path, so each successful
    /// acquisition is released exactly once, on whichever exit path hands
    /// the guard back.
    pub fn unlock(&mut self, guard: MutexGuard<T>)
        requires
            old(self).wf(),
            old(self).locked(),
        ensures
            final(self).wf(),
            !final(self).locked(),
            final(self).stored() == Some(guard@),
            final(self).abs() == protocol::step(old(self).abs(), protocol::LockEvent::Release),
            protocol::enabled(old(self).abs(), protocol::LockEvent::Release),
    {
        let MutexGuard { value: v } = guard;
        self.value = Some(v);
        self.locked = false;
    }
}

/// At most one guard for a lock exists at any instant: a lock's state is
/// always a valid state of the acquisition/release protocol, so the guard
/// count its flag stands for never exceeds one. Together with the clauses on
/// [`Mutex::new`], [`Mutex::try_lock`], [`Mutex::lock`] and [`Mutex::unlock`]
/// that name their protocol step, this puts every use of the lock inside the
/// runs that [`protocol::lemma_mutual_exclusion`] covers.
pub proof fn lemma_lock_state_valid<T>(m: Mutex<T>)
    ensures
        protocol::valid(m.abs()),
        m.holders() <= 1,
{
}

impl<T> MutexGuard<T> {
    /// Read access to the protected value, unconditional and panic-free:
    /// the guard's existence is the proof of exclusivity.
    pub fn get(&self) -> (r: &T)
        ensures
            *r == self@,
    {
        &self.value
    }

    /// Write access to the protected value, under the same proof of
    /// exclusivity; mutations stay with the guard until it is handed back.
    pub fn get_mut(&mut self) -> (r: &mut T)
        ensures
            *r == old(self)@,
            final(self)@ == *final(r),
    {
        &mut self.value
    }
}

} // verus!

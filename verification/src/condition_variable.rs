//! A condition variable, layered on the mutex.
//!
//! The whole state is one monotonically advancing generation counter (with
//! silent wraparound). A waiter snapshots the counter while it still holds
//! the mutex, releases the guard, and then sleeps on the counter only while
//! it still equals the snapshot; on return it reacquires the same mutex. A
//! notification bumps the counter and wakes one or all sleepers. Spurious
//! wakeups are permitted, so callers loop on their own predicate.
//!
//! The futex contract makes the guarantee one-sided: a notification that
//! happens after a waiter's snapshot is never lost, because the bumped
//! counter no longer equals the snapshot and the blocking check fails; a
//! notification strictly before the snapshot is legitimately missed, which
//! is why predicate re-checking, not blind waking, is mandatory.

use crate::mutex::{lock_rel, unlock_rel, Mutex, MutexGuard};
use crate::wrap_inc;
use vstd::prelude::*;

verus! {

/// Whether a waiter's sleep goes through: the futex blocks only while the
/// counter still equals the waiter's snapshot.
pub open spec fn blocks(counter: u32, snapshot: u32) -> bool {
    counter == snapshot
}

/// A condition variable: one generation counter, no owned data. It operates
/// only on a mutex guard supplied by the caller.
pub struct Condvar {
    counter: u32,
}

impl Condvar {
    /// The generation counter.
    pub closed spec fn count(&self) -> u32 {
        self.counter
    }

    /// A fresh condition variable, at generation zero.
    pub fn new() -> (c: Self)
        ensures
            c.count() == 0,
    {
        Condvar { counter: 0 }
    }

    /// Wake one waiter: bump the counter, then the host wakes one sleeper
    /// parked on it.
    pub fn notify_one(&mut self)
        ensures
            final(self).count() == wrap_inc(old(self).count()),
    {
        self.counter = crate::bump(self.counter);
    }

    /// Wake every waiter: bump the counter, then the host wakes all
    /// sleepers parked on it.
    pub fn notify_all(&mut self)
        ensures
            final(self).count() == wrap_inc(old(self).count()),
    {
        self.counter = crate::bump(self.counter);
    }

    /// The first half of a wait, taken while the caller still holds the
    /// mutex: snapshot the generation counter, then release the guard.
    /// Returns the snapshot and whether the release must wake a mutex
    /// waiter. The host then sleeps on the counter while [`Self::should_block`]
    /// holds, and finishes through [`Self::wait_resume`].
    pub fn wait_release<T>(&self, mutex: &mut Mutex<T>, guard: MutexGuard<T>) -> (r: (u32, bool))
        requires
            old(mutex).wf(),
            old(mutex).is_locked(),
        ensures
            final(mutex).wf(),
            r.0 == self.count(),
            unlock_rel(*old(mutex), *final(mutex), guard, r.1),
    {
        let snapshot = self.counter;
        let wake = mutex.unlock(guard);
        (snapshot, wake)
    }

    /// The futex equality check a sleeping waiter is subject to: it stays
    /// asleep only while the counter still equals its snapshot.
    pub fn should_block(&self, snapshot: u32) -> (b: bool)
        ensures
            b == blocks(self.count(), snapshot),
    {
        self.counter == snapshot
    }

    /// The second half of a wait, after the sleep returns (perhaps
    /// spuriously): reacquire the same mutex and hand back a fresh guard.
    pub fn wait_resume<T>(&self, mutex: &mut Mutex<T>) -> (g: MutexGuard<T>)
        requires
            old(mutex).wf(),
            !old(mutex).is_locked(),
        ensures
            final(mutex).wf(),
            lock_rel(*old(mutex), *final(mutex), g),
    {
        mutex.lock()
    }
}

/// Law: a notification that happens after a waiter's snapshot is never
/// lost. The notify bumps the counter away from the snapshot, so the
/// waiter's blocking check fails and it returns rather than sleeping
/// through the wake. Extra spurious wakeups only send the waiter back to
/// its predicate; they change nothing that it observes under the lock.
pub proof fn lemma_notify_after_snapshot_not_lost(snapshot: u32)
    ensures
        !blocks(wrap_inc(snapshot), snapshot),
{
}

} // verus!

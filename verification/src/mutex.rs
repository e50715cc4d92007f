//! A mutual-exclusion lock.
//!
//! The protocol keeps one state word with three values: `UNLOCKED`, `LOCKED`
//! (held, nobody parked) and `CONTENDED` (held, waiters may be parked).
//! Acquisition first tries the uncontended compare-and-swap from `UNLOCKED`
//! to `LOCKED`; on failure it spins a bounded number of rounds while the word
//! stays `LOCKED`, then repeatedly swaps `CONTENDED` in, sleeping on the word
//! between rounds, until a swap returns `UNLOCKED`. Release puts `UNLOCKED`
//! back and wakes one sleeper exactly when the word was `CONTENDED`.
//!
//! Every transition of that protocol is a verified step function from the
//! observed word to the word to install and the action to take. The
//! [`Mutex`] type runs the same protocol over owned state, so the guarded
//! value moves into the [`MutexGuard`] for the span of the critical section;
//! a host shell that really shares the word between threads takes each of its
//! decisions through the step functions.

use vstd::prelude::*;

verus! {

/// State word: not held.
pub const UNLOCKED: u32 = 0;

/// State word: held, and no thread has recorded itself as a waiter.
pub const LOCKED: u32 = 1;

/// State word: held, and threads may be parked waiting for it.
pub const CONTENDED: u32 = 2;

/// Rounds the contended path spins before it sleeps.
pub const SPIN_LIMIT: u32 = 100;

/// What the acquiring thread does after one step of the contended protocol.
#[derive(Debug, PartialEq, Eq, Structural)]
pub enum MutexAction {
    /// The swap returned `UNLOCKED`: the lock is taken.
    Acquired,
    /// The word still indicates contention: sleep until it changes.
    Sleep,
}

/// The uncontended acquisition step: the compare-and-swap from `UNLOCKED` to
/// `LOCKED`. Returns the word to install and whether the lock was taken.
pub fn lock_fast_step(observed: u32) -> (r: (u32, bool))
    ensures
        r.1 <==> observed == UNLOCKED,
        r.1 ==> r.0 == LOCKED,
        !r.1 ==> r.0 == observed,
{
    if observed == UNLOCKED {
        (LOCKED, true)
    } else {
        (observed, false)
    }
}

/// Whether the contended path keeps spinning: only while the word shows the
/// lock held without recorded waiters, and spin rounds remain.
pub fn contended_spin_step(observed: u32, spins_left: u32) -> (again: bool)
    ensures
        again <==> observed == LOCKED && spins_left > 0,
{
    observed == LOCKED && spins_left > 0
}

/// One round of the contended sleep loop: the swap that installs
/// `CONTENDED`. The lock is taken exactly when the swapped-out word was
/// `UNLOCKED`; any other previous word sends the thread to sleep on the word
/// with `CONTENDED` as the expected value.
pub fn contended_swap_step(previous: u32) -> (r: (u32, MutexAction))
    ensures
        r.0 == CONTENDED,
        previous == UNLOCKED ==> r.1 == MutexAction::Acquired,
        previous != UNLOCKED ==> r.1 == MutexAction::Sleep,
{
    if previous == UNLOCKED {
        (CONTENDED, MutexAction::Acquired)
    } else {
        (CONTENDED, MutexAction::Sleep)
    }
}

/// The release step: the word returns to `UNLOCKED`, and one sleeper is
/// woken exactly when the previous word had recorded waiters.
pub fn unlock_step(previous: u32) -> (wake: bool)
    ensures
        wake <==> previous == CONTENDED,
{
    previous == CONTENDED
}

/// Exclusive access to the value guarded by a [`Mutex`], alive from a
/// successful acquisition until it is handed back through [`Mutex::unlock`].
pub struct MutexGuard<T> {
    value: T,
}

impl<T> View for MutexGuard<T> {
    type V = T;

    closed spec fn view(&self) -> T {
        self.value
    }
}

impl<T> MutexGuard<T> {
    /// Read the guarded value.
    pub fn get(&self) -> (r: &T)
        ensures
            *r == self@,
    {
        &self.value
    }

    /// Write the guarded value.
    pub fn set(&mut self, value: T)
        ensures
            final(self)@ == value,
    {
        self.value = value;
    }

    /// Mutate the guarded value in place.
    pub fn get_mut(&mut self) -> (r: &mut T)
        ensures
            *r == old(self)@,
            final(self)@ == *final(r),
    {
        &mut self.value
    }

    /// Surrender the guard, keeping the value.
    pub fn into_inner(self) -> (v: T)
        ensures
            v == self@,
    {
        self.value
    }
}

/// A mutual-exclusion lock over an owned value.
///
/// While the lock is held the value lives in the guard, so no path can read
/// it without first acquiring; handing the guard to [`Mutex::unlock`] puts
/// the value back, exactly once per acquisition.
pub struct Mutex<T> {
    state: u32,
    value: Option<T>,
}

impl<T> Mutex<T> {
    /// The protocol state word.
    pub closed spec fn word(&self) -> u32 {
        self.state
    }

    /// The value at rest in the lock; `None` while a guard holds it.
    pub closed spec fn stored(&self) -> Option<T> {
        self.value
    }

    /// The state word is one of the three protocol values, and the value is
    /// at rest exactly while the lock is not held.
    pub open spec fn wf(&self) -> bool {
        &&& self.word() == UNLOCKED || self.word() == LOCKED || self.word() == CONTENDED
        &&& (self.stored() is Some <==> self.word() == UNLOCKED)
    }

    /// Whether the lock is held.
    pub open spec fn is_locked(&self) -> bool {
        self.word() != UNLOCKED
    }

    /// A new, unlocked mutex guarding `value`.
    pub fn new(value: T) -> (m: Self)
        ensures
            m.wf(),
            !m.is_locked(),
            m.stored() == Some(value),
    {
        Mutex { state: UNLOCKED, value: Some(value) }
    }

    /// Acquire the lock. A host that shares the word between threads loops
    /// through [`lock_fast_step`], [`contended_spin_step`] and
    /// [`contended_swap_step`]; over owned state the fast path is the only
    /// reachable one, and re-acquiring a held lock — a deadlock, by design
    /// not detected — is excluded outright.
    pub fn lock(&mut self) -> (g: MutexGuard<T>)
        requires
            old(self).wf(),
            !old(self).is_locked(),
        ensures
            final(self).wf(),
            lock_rel(*old(self), *final(self), g),
            final(self).word() == LOCKED,
    {
        let (next, acquired) = lock_fast_step(self.state);
        assert(acquired);
        self.state = next;
        let value = self.value.take();
        MutexGuard { value: value.unwrap() }
    }

    /// Record that a thread is about to park on the lock: the swap that
    /// moves a held word to `CONTENDED`, as the contended path performs it.
    pub fn mark_contended(&mut self)
        requires
            old(self).wf(),
            old(self).is_locked(),
        ensures
            final(self).wf(),
            final(self).word() == CONTENDED,
            final(self).stored() == old(self).stored(),
    {
        self.state = CONTENDED;
    }

    /// Release the lock, handing the guarded value back. Returns whether one
    /// parked thread must be woken, which is the case exactly when the word
    /// had recorded waiters. Each successful acquisition consumes its guard
    /// here exactly once.
    pub fn unlock(&mut self, g: MutexGuard<T>) -> (wake: bool)
        requires
            old(self).wf(),
            old(self).is_locked(),
        ensures
            final(self).wf(),
            unlock_rel(*old(self), *final(self), g, wake),
    {
        let prev = self.state;
        self.state = UNLOCKED;
        self.value = Some(g.into_inner());
        unlock_step(prev)
    }
}

/// How an acquisition relates the lock before and after to the guard it
/// returns: the word shows the lock held, and the guard holds exactly the
/// value that was at rest.
pub open spec fn lock_rel<T>(pre: Mutex<T>, post: Mutex<T>, g: MutexGuard<T>) -> bool {
    &&& post.is_locked()
    &&& post.stored() is None
    &&& Some(g@) == pre.stored()
}

/// How a release relates the lock before and after to the guard it consumed:
/// the word shows the lock free, the value at rest is exactly the guard's,
/// and a sleeper is woken exactly when waiters were recorded.
pub open spec fn unlock_rel<T>(pre: Mutex<T>, post: Mutex<T>, g: MutexGuard<T>, wake: bool) -> bool {
    &&& !post.is_locked()
    &&& post.stored() == Some(g@)
    &&& (wake <==> pre.word() == CONTENDED)
}

/// Law: a mutex-guarded hand-off is exact. Whatever value one critical
/// section releases, the next acquisition's guard holds that value, never a
/// partial or stale one.
pub proof fn lemma_guarded_round_trip<T>(
    a: Mutex<T>,
    b: Mutex<T>,
    c: Mutex<T>,
    gw: MutexGuard<T>,
    wake: bool,
    gr: MutexGuard<T>,
)
    requires
        unlock_rel(a, b, gw, wake),
        lock_rel(b, c, gr),
    ensures
        gr@ == gw@,
{
}

/// Law: two critical sections that each append one element serialize. In
/// either order the outcome is the starting sequence with both elements
/// appended — the same multiset of elements, nothing lost, nothing
/// duplicated, no partial interleaving.
pub proof fn lemma_two_guarded_pushes_serialize(s: Seq<u64>, a: u64, b: u64)
    ensures
        s.push(a).push(b).to_multiset() == s.to_multiset().insert(a).insert(b),
        s.push(b).push(a).to_multiset() == s.to_multiset().insert(a).insert(b),
{
    broadcast use vstd::seq_lib::group_to_multiset_ensures;

    assert(s.to_multiset().insert(b).insert(a) =~= s.to_multiset().insert(a).insert(b));
}

} // verus!

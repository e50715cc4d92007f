//! A spin lock: busy-wait mutual exclusion on one boolean word.
//!
//! Acquisition swaps `true` into the word until a swap returns `false`;
//! release stores `false`. There is no sleeping and no waking — a
//! contending thread just spins — so the whole protocol is the one swap
//! decision. The [`SpinLock`] runs it over owned state, the guarded value
//! moving into the [`SpinGuard`] for the span of the critical section.

use vstd::prelude::*;

verus! {

/// The swap step of the acquisition loop: `true` is swapped in, and the
/// lock is taken exactly when the swapped-out word was `false`; otherwise
/// the thread spins and swaps again.
pub fn spin_swap_step(previous: bool) -> (acquired: bool)
    ensures
        acquired <==> !previous,
{
    !previous
}

/// Exclusive access to the value guarded by a [`SpinLock`], alive from a
/// successful acquisition until it is handed back through
/// [`SpinLock::unlock`].
pub struct SpinGuard<T> {
    value: T,
}

impl<T> View for SpinGuard<T> {
    type V = T;

    closed spec fn view(&self) -> T {
        self.value
    }
}

impl<T> SpinGuard<T> {
    /// Read the guarded value.
    pub fn get(&self) -> (r: &T)
        ensures
            *r == self@,
    {
        &self.value
    }

    /// Write the guarded value.
    pub fn set(&mut self, value: T)
        ensures
            final(self)@ == value,
    {
        self.value = value;
    }

    /// Mutate the guarded value in place.
    pub fn get_mut(&mut self) -> (r: &mut T)
        ensures
            *r == old(self)@,
            final(self)@ == *final(r),
    {
        &mut self.value
    }

    /// Surrender the guard, keeping the value.
    pub fn into_inner(self) -> (v: T)
        ensures
            v == self@,
    {
        self.value
    }
}

/// A busy-wait mutual-exclusion lock over an owned value.
pub struct SpinLock<T> {
    locked: bool,
    value: Option<T>,
}

impl<T> SpinLock<T> {
    /// Whether the lock is held.
    pub closed spec fn is_locked(&self) -> bool {
        self.locked
    }

    /// The value at rest in the lock; `None` while a guard holds it.
    pub closed spec fn stored(&self) -> Option<T> {
        self.value
    }

    /// The value is at rest exactly while the lock is free.
    pub open spec fn wf(&self) -> bool {
        self.stored() is Some <==> !self.is_locked()
    }

    /// A new, unlocked spin lock guarding `value`.
    pub fn new(value: T) -> (l: Self)
        ensures
            l.wf(),
            !l.is_locked(),
            l.stored() == Some(value),
    {
        SpinLock { locked: false, value: Some(value) }
    }

    /// Acquire the lock. A host that shares the word swaps until
    /// [`spin_swap_step`] reports the lock taken; over owned state the free
    /// word is the only reachable one, and re-acquiring a held lock — an
    /// endless spin — is excluded outright.
    pub fn lock(&mut self) -> (g: SpinGuard<T>)
        requires
            old(self).wf(),
            !old(self).is_locked(),
        ensures
            final(self).wf(),
            final(self).is_locked(),
            final(self).stored() is None,
            Some(g@) == old(self).stored(),
    {
        let acquired = spin_swap_step(self.locked);
        assert(acquired);
        self.locked = true;
        let value = self.value.take();
        SpinGuard { value: value.unwrap() }
    }

    /// Release the lock, handing the guarded value back: the store of
    /// `false`. Each successful acquisition consumes its guard here exactly
    /// once.
    pub fn unlock(&mut self, g: SpinGuard<T>)
        requires
            old(self).wf(),
            old(self).is_locked(),
        ensures
            final(self).wf(),
            !final(self).is_locked(),
            final(self).stored() == Some(g@),
    {
        self.locked = false;
        self.value = Some(g.into_inner());
    }
}

} // verus!

//! Low-level synchronization primitives, verified.
//!
//! The crate states and proves the state machines at the heart of a small
//! concurrency toolkit: an atomically reference-counted shared-ownership
//! pointer with weak references, a futex-style mutex, a condition variable, a
//! reader/writer lock with writer-starvation avoidance, a spin lock, and
//! three one-shot channels.
//!
//! Verified code has no shared mutation, so each primitive is written over
//! explicit owned state: the word-level transition of every atomic operation
//! of a protocol is a verified function from the observed word to the word to
//! install and the action to take, and the primitive itself runs the same
//! protocol over state it owns. A host shell that really shares the words
//! between threads performs the atomic accesses, the futex waits and wakes,
//! and the thread parking, and takes every decision by calling the step
//! functions.

pub mod arc;
pub mod channel;
pub mod condition_variable;
pub mod mutex;
pub mod read_write_lock;
pub mod spin;
pub mod state_machine_channel;
pub mod type_safe_channel;

use vstd::prelude::*;

verus! {

/// A counter bump with silent wraparound, as a relaxed atomic increment
/// performs it: the condition variable's generation counter and the
/// reader/writer lock's writer-wake token both advance this way.
pub open spec fn wrap_inc(c: u32) -> u32 {
    if c == u32::MAX {
        0
    } else {
        (c + 1) as u32
    }
}

/// Exec form of [`wrap_inc`].
pub fn bump(c: u32) -> (r: u32)
    ensures
        r == wrap_inc(c),
{
    if c == u32::MAX {
        0
    } else {
        c + 1
    }
}

} // verus!

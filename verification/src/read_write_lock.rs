//! A reader/writer lock with writer-starvation avoidance.
//!
//! One state word encodes the whole lock: twice the number of active readers,
//! plus one if a writer is waiting, with the all-ones sentinel meaning
//! write-locked. Readers may acquire while the word is even and must block
//! while it is odd — a waiting or active writer shuts new readers out. A
//! second word, the writer-wake token, is bumped whenever a writer should
//! look again; writers sleep on it.
//!
//! A reader release subtracts two; at the single tie-break word — one
//! remaining reader plus the waiting bit — the release bumps the token and
//! wakes the waiting writer, because that release is what makes the lock
//! available to it. A writer claims the sentinel when no reader is active,
//! sets the waiting bit when readers are (blocking new ones), and otherwise
//! sleeps on the token. A writer release stores zero, bumps the token and
//! wakes one writer, and wakes all readers parked on the word.
//!
//! Every transition is a verified step function from the observed word to
//! the word to install and the action to take; the [`RwLock`] type runs the
//! same protocol over owned state, and a host shell that really shares the
//! words between threads takes each decision through the step functions.

use crate::wrap_inc;
use core::marker::PhantomData;
use vstd::prelude::*;

verus! {

/// The all-ones sentinel: write-locked. An odd word, so it also shuts new
/// readers out.
pub const WRITE_LOCKED: u32 = u32::MAX;

/// The cap on the state word for read acquisition: at or past half the
/// representable range the reader count is treated as exhausted, and the
/// host aborts rather than risk the word wrapping into the sentinel.
pub const WORD_LIMIT: u32 = u32::MAX / 2;

/// What one round of the read-acquisition loop decides.
#[derive(Debug, PartialEq, Eq, Structural)]
pub enum ReadStep {
    /// Install this word (two more than observed): the read lock is taken.
    Acquire(u32),
    /// The word is odd — a writer waits or writes — so sleep on the word
    /// with the observed value, then reload.
    Block,
    /// The reader count is exhausted: the host aborts.
    Overflow,
}

/// The decision [`read_step`] takes: acquire on an even word below the cap,
/// block on any odd word, abort at the cap.
pub open spec fn read_decision(s: u32) -> ReadStep {
    if s % 2 == 1 {
        ReadStep::Block
    } else if s >= WORD_LIMIT - 2 {
        ReadStep::Overflow
    } else {
        ReadStep::Acquire((s + 2) as u32)
    }
}

/// One round of the read-acquisition loop: the compare-and-swap that adds
/// one reader while the word is even.
pub fn read_step(s: u32) -> (r: ReadStep)
    ensures
        r == read_decision(s),
{
    if s % 2 == 1 {
        ReadStep::Block
    } else if s >= WORD_LIMIT - 2 {
        ReadStep::Overflow
    } else {
        ReadStep::Acquire(s + 2)
    }
}

/// Whether a reader release must wake the waiting writer: exactly at the
/// tie-break word, one remaining reader plus the waiting bit, since that
/// release is what hands the lock to the writer.
pub open spec fn read_release_wakes(prev: u32) -> bool {
    prev == 3
}

/// One reader release: subtract one reader from the word observed before
/// the subtraction, and wake the waiting writer exactly at the tie-break.
pub fn read_unlock_step(prev: u32) -> (r: (u32, bool))
    requires
        prev >= 2,
        prev != WRITE_LOCKED,
    ensures
        r.0 == prev - 2,
        r.1 == read_release_wakes(prev),
{
    (prev - 2, prev == 3)
}

/// What one round of the write-acquisition loop decides.
#[derive(Debug, PartialEq, Eq, Structural)]
pub enum WriteStep {
    /// No reader is active (the waiting bit alone does not matter):
    /// compare-and-swap the sentinel in and take the write lock.
    Claim,
    /// Readers are active and the waiting bit is clear: install this word
    /// (observed plus one) to shut new readers out, then look again.
    SetWaitBit(u32),
    /// Readers are active and the bit is already set: sleep on the
    /// writer-wake token, then reload.
    Sleep,
}

/// The decision [`write_step`] takes.
pub open spec fn write_decision(s: u32) -> WriteStep {
    if s <= 1 {
        WriteStep::Claim
    } else if s % 2 == 0 {
        WriteStep::SetWaitBit((s + 1) as u32)
    } else {
        WriteStep::Sleep
    }
}

/// One round of the write-acquisition loop.
pub fn write_step(s: u32) -> (r: WriteStep)
    requires
        s == WRITE_LOCKED || s <= WORD_LIMIT,
    ensures
        r == write_decision(s),
{
    if s <= 1 {
        WriteStep::Claim
    } else if s % 2 == 0 {
        WriteStep::SetWaitBit(s + 1)
    } else {
        WriteStep::Sleep
    }
}

/// The recheck a writer performs between reading the wake token and going
/// to sleep on it: it only sleeps while the word still shows contention.
pub fn write_sleep_check(s: u32) -> (sleep: bool)
    ensures
        sleep <==> s >= 2,
{
    s >= 2
}

/// Shared access to the value guarded by an [`RwLock`], one per active
/// reader, alive until handed back through [`RwLock::end_read`]. Readers
/// share the value in place, so the guard carries no data of its own.
pub struct ReadGuard<T> {
    marker: PhantomData<T>,
}

/// Exclusive access to the value guarded by an [`RwLock`], alive from a
/// successful write acquisition until it is handed back through
/// [`RwLock::end_write`].
pub struct WriteGuard<T> {
    value: T,
}

impl<T> View for WriteGuard<T> {
    type V = T;

    closed spec fn view(&self) -> T {
        self.value
    }
}

impl<T> WriteGuard<T> {
    /// Read the guarded value.
    pub fn get(&self) -> (r: &T)
        ensures
            *r == self@,
    {
        &self.value
    }

    /// Write the guarded value.
    pub fn set(&mut self, value: T)
        ensures
            final(self)@ == value,
    {
        self.value = value;
    }

    /// Mutate the guarded value in place.
    pub fn get_mut(&mut self) -> (r: &mut T)
        ensures
            *r == old(self)@,
            final(self)@ == *final(r),
    {
        &mut self.value
    }
}

/// A reader/writer lock over an owned value: many readers or one writer.
pub struct RwLock<T> {
    state: u32,
    writer_wake_counter: u32,
    value: Option<T>,
}

impl<T> RwLock<T> {
    /// The state word: twice the active readers, plus one if a writer
    /// waits, or the all-ones sentinel when write-locked.
    pub closed spec fn word(&self) -> u32 {
        self.state
    }

    /// The writer-wake token: a counter writers sleep on.
    pub closed spec fn wake_token(&self) -> u32 {
        self.writer_wake_counter
    }

    /// The value at rest in the lock; `None` while a writer holds it.
    pub closed spec fn stored(&self) -> Option<T> {
        self.value
    }

    /// The word stays below the reader cap or at the sentinel, and the
    /// value is in place exactly while no writer holds it.
    pub open spec fn wf(&self) -> bool {
        &&& (self.word() == WRITE_LOCKED || self.word() <= WORD_LIMIT)
        &&& (self.stored() is Some <==> self.word() != WRITE_LOCKED)
    }

    /// Whether a writer holds the lock.
    pub open spec fn is_write_locked(&self) -> bool {
        self.word() == WRITE_LOCKED
    }

    /// The number of active readers.
    pub open spec fn readers(&self) -> u32 {
        if self.word() == WRITE_LOCKED {
            0
        } else {
            self.word() / 2
        }
    }

    /// Whether the waiting bit is set: a writer is waiting, and new readers
    /// are shut out.
    pub open spec fn writer_waiting(&self) -> bool {
        self.word() != WRITE_LOCKED && self.word() % 2 == 1
    }

    /// A fresh, unlocked lock guarding `value`.
    pub fn new(value: T) -> (l: Self)
        ensures
            l.wf(),
            l.word() == 0,
            l.wake_token() == 0,
            l.stored() == Some(value),
    {
        RwLock { state: 0, writer_wake_counter: 0, value: Some(value) }
    }

    /// Acquire a read lock. A host that shares the word loops through
    /// [`read_step`], sleeping on the word while it is odd; over owned
    /// state only the even, below-cap word can be seen here, so the
    /// acquisition is immediate.
    pub fn read(&mut self) -> (g: ReadGuard<T>)
        requires
            old(self).wf(),
            !old(self).writer_waiting(),
            !old(self).is_write_locked(),
            old(self).word() < WORD_LIMIT - 2,
        ensures
            final(self).wf(),
            final(self).word() == old(self).word() + 2,
            final(self).readers() == old(self).readers() + 1,
            final(self).wake_token() == old(self).wake_token(),
            final(self).stored() == old(self).stored(),
    {
        match read_step(self.state) {
            ReadStep::Acquire(next) => {
                self.state = next;
                ReadGuard { marker: PhantomData }
            },
            _ => unreached(),
        }
    }

    /// Read the guarded value in place, as any active reader does. Readers
    /// only share the lock while no writer holds it, so the value is there
    /// to observe, unmutated.
    pub fn get(&self) -> (r: &T)
        requires
            self.wf(),
            !self.is_write_locked(),
        ensures
            self.stored() == Some(*r),
    {
        match &self.value {
            Some(v) => v,
            None => unreached(),
        }
    }

    /// Release a read lock. Returns whether the waiting writer must be
    /// woken: exactly at the tie-break, when this reader was the last one
    /// in the writer's way; the token is bumped then, and the host wakes
    /// one writer sleeping on it.
    pub fn end_read(&mut self, g: ReadGuard<T>) -> (wake_writer: bool)
        requires
            old(self).wf(),
            old(self).readers() >= 1,
        ensures
            final(self).wf(),
            final(self).word() == old(self).word() - 2,
            final(self).readers() == old(self).readers() - 1,
            final(self).stored() == old(self).stored(),
            wake_writer == read_release_wakes(old(self).word()),
            wake_writer ==> final(self).wake_token() == wrap_inc(old(self).wake_token()),
            !wake_writer ==> final(self).wake_token() == old(self).wake_token(),
    {
        let _ = g;
        let (next, wake) = read_unlock_step(self.state);
        self.state = next;
        if wake {
            self.writer_wake_counter = crate::bump(self.writer_wake_counter);
        }
        wake
    }

    /// Record a waiting writer: the compare-and-swap that sets the bit on
    /// an even word with active readers, shutting new readers out while
    /// this writer sleeps.
    pub fn mark_writer_waiting(&mut self)
        requires
            old(self).wf(),
            old(self).readers() >= 1,
            !old(self).writer_waiting(),
        ensures
            final(self).wf(),
            final(self).word() == old(self).word() + 1,
            final(self).writer_waiting(),
            final(self).readers() == old(self).readers(),
            final(self).wake_token() == old(self).wake_token(),
            final(self).stored() == old(self).stored(),
    {
        match write_step(self.state) {
            WriteStep::SetWaitBit(next) => {
                self.state = next;
            },
            _ => unreached(),
        }
    }

    /// Acquire the write lock: the claim step, taken when no reader is
    /// active — with or without the waiting bit. A host that shares the
    /// word loops through [`write_step`], sleeping on the wake token
    /// between rounds; over owned state only the claim is reachable here.
    pub fn write(&mut self) -> (g: WriteGuard<T>)
        requires
            old(self).wf(),
            old(self).word() <= 1,
        ensures
            final(self).wf(),
            final(self).is_write_locked(),
            final(self).wake_token() == old(self).wake_token(),
            Some(g@) == old(self).stored(),
    {
        match write_step(self.state) {
            WriteStep::Claim => {
                self.state = WRITE_LOCKED;
                let value = self.value.take();
                WriteGuard { value: value.unwrap() }
            },
            _ => unreached(),
        }
    }

    /// Release the write lock, handing the guarded value back. The word
    /// returns to zero, the wake token is bumped, and the host then wakes
    /// one writer sleeping on the token and all readers sleeping on the
    /// word.
    pub fn end_write(&mut self, g: WriteGuard<T>)
        requires
            old(self).wf(),
            old(self).is_write_locked(),
        ensures
            final(self).wf(),
            final(self).word() == 0,
            final(self).readers() == 0,
            !final(self).writer_waiting(),
            final(self).wake_token() == wrap_inc(old(self).wake_token()),
            final(self).stored() == Some(g@),
    {
        self.state = 0;
        self.writer_wake_counter = crate::bump(self.writer_wake_counter);
        self.value = Some(g.value);
    }
}

/// Law: readers are admitted concurrently. From an idle lock, each of `n`
/// successive read acquisitions succeeds, the word climbing by two each
/// time, while the value stays in place for all of them to observe.
pub proof fn lemma_readers_admitted_concurrently(n: u32)
    requires
        2 * n + 2 < WORD_LIMIT,
    ensures
        forall|j: u32|
            j < n ==> #[trigger] read_decision((2 * j) as u32) == ReadStep::Acquire(
                (2 * j + 2) as u32,
            ),
{
}

/// Law: once the waiting bit is set, the writer is through within a bounded
/// number of read cycles. While any of the `readers` active readers
/// remains, the word is odd and every new read attempt blocks; the release
/// that leaves only the waiting bit is the tie-break that wakes the writer;
/// and at the remaining word the writer's claim succeeds.
pub proof fn lemma_writer_not_starved(readers: u32)
    requires
        1 <= readers,
        2 * readers + 1 <= WORD_LIMIT,
    ensures
        forall|j: u32|
            j < readers ==> #[trigger] read_decision((2 * (readers - j) + 1) as u32)
                == ReadStep::Block,
        read_release_wakes(3),
        write_decision(1) == WriteStep::Claim,
{
    assert forall|j: u32| j < readers implies #[trigger] read_decision(
        (2 * (readers - j) + 1) as u32,
    ) == ReadStep::Block by {
        assert((2 * (readers - j) + 1) % 2 == 1);
    }
}

} // verus!

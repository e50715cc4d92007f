//! An atomically reference-counted shared-ownership pointer with weak
//! references.
//!
//! One allocation block carries two counters and the payload. The strong
//! count is the number of strong handles; the payload is alive exactly while
//! it is positive, and is destroyed exactly once, at its one-to-zero
//! transition. The weak word counts weak handles plus one implicit unit that
//! stands for "at least one strong handle exists"; the block itself is freed
//! when the weak word reaches zero, which can only happen after the payload
//! is gone. Exclusive access (`get_mut`) holds the weak word at a reserved
//! sentinel for the span of its check, so that no weak handle can appear
//! while uniqueness is being decided; a downgrade that observes the sentinel
//! backs off and retries. Counters nearing half their range are fatal for
//! the host — it aborts rather than let a count wrap — so those inputs are
//! excluded here.
//!
//! Verified code has no shared mutation, so the block is an owned value that
//! callers pass alongside the handles, and every counter transition of the
//! protocol is a verified step function from the observed count to the count
//! to install and the decision taken. A host shell that really shares the
//! block between threads performs the atomic operations and takes each
//! decision through these functions.

use core::marker::PhantomData;
use vstd::prelude::*;

verus! {

/// The reserved weak-word value that marks an exclusivity check in progress.
pub const WEAK_SENTINEL: usize = usize::MAX;

/// The counter ceiling: a count observed above half the representable range
/// means the host must abort rather than risk wraparound.
pub const COUNT_LIMIT: usize = usize::MAX / 2;

/// The decision one strong-clone step takes: the incremented count, or
/// `None` when the observed count is past the ceiling and the host aborts.
pub fn strong_clone_step(strong: usize) -> (r: Option<usize>)
    ensures
        r is Some <==> strong <= COUNT_LIMIT,
        r is Some ==> r->0 == strong + 1,
{
    if strong <= COUNT_LIMIT {
        Some(strong + 1)
    } else {
        None
    }
}

/// The decision one weak-clone step takes; same ceiling policy as
/// [`strong_clone_step`].
pub fn weak_clone_step(weak: usize) -> (r: Option<usize>)
    ensures
        r is Some <==> weak <= COUNT_LIMIT,
        r is Some ==> r->0 == weak + 1,
{
    if weak <= COUNT_LIMIT {
        Some(weak + 1)
    } else {
        None
    }
}

/// What one round of the upgrade loop decides from the observed strong count.
#[derive(Debug, PartialEq, Eq, Structural)]
pub enum UpgradeStep {
    /// The strong count was zero: the payload is gone, permanently.
    Dead,
    /// The count is past the ceiling: the host aborts.
    Overflow,
    /// Install this incremented count; the upgrade succeeds.
    Claim(usize),
}

/// One round of the upgrade loop: the compare-and-swap that increments the
/// strong count only while it is positive.
pub fn upgrade_step(strong: usize) -> (r: UpgradeStep)
    ensures
        r == upgrade_decision(strong),
{
    if strong == 0 {
        UpgradeStep::Dead
    } else if strong > COUNT_LIMIT {
        UpgradeStep::Overflow
    } else {
        UpgradeStep::Claim(strong + 1)
    }
}

/// The decision [`upgrade_step`] takes: dead exactly when no strong handle
/// survives, otherwise claim the incremented count (or abort past the
/// ceiling).
pub open spec fn upgrade_decision(strong: usize) -> UpgradeStep {
    if strong == 0 {
        UpgradeStep::Dead
    } else if strong > COUNT_LIMIT {
        UpgradeStep::Overflow
    } else {
        UpgradeStep::Claim((strong + 1) as usize)
    }
}

/// What one round of the downgrade loop decides from the observed weak word.
#[derive(Debug, PartialEq, Eq, Structural)]
pub enum DowngradeStep {
    /// The word holds the exclusivity sentinel: spin and reload, never
    /// proceed into the window.
    Retry,
    /// The word is past the ceiling: the host aborts.
    Overflow,
    /// Install this incremented word; the downgrade succeeds.
    Claim(usize),
}

/// One round of the downgrade loop: the compare-and-swap that increments the
/// weak word, unless the exclusivity sentinel is in place.
pub fn downgrade_step(weak: usize) -> (r: DowngradeStep)
    ensures
        r == downgrade_decision(weak),
{
    if weak == WEAK_SENTINEL {
        DowngradeStep::Retry
    } else if weak > COUNT_LIMIT {
        DowngradeStep::Overflow
    } else {
        DowngradeStep::Claim(weak + 1)
    }
}

/// The decision [`downgrade_step`] takes: back off at the sentinel, abort
/// past the ceiling, otherwise claim the incremented word.
pub open spec fn downgrade_decision(weak: usize) -> DowngradeStep {
    if weak == WEAK_SENTINEL {
        DowngradeStep::Retry
    } else if weak > COUNT_LIMIT {
        DowngradeStep::Overflow
    } else {
        DowngradeStep::Claim((weak + 1) as usize)
    }
}

/// The opening step of the exclusivity check: the compare-and-swap of the
/// weak word from exactly one (only the implicit unit, so no weak handle
/// exists) to the sentinel. `None` means the check fails outright.
pub fn exclusivity_open_step(weak: usize) -> (r: Option<usize>)
    ensures
        r is Some <==> weak == 1,
        r is Some ==> r->0 == WEAK_SENTINEL,
{
    if weak == 1 {
        Some(WEAK_SENTINEL)
    } else {
        None
    }
}

/// The uniqueness test inside the exclusivity window: exactly one strong
/// handle.
pub fn unique_strong_check(strong: usize) -> (unique: bool)
    ensures
        unique <==> strong == 1,
{
    strong == 1
}

/// One strong-drop step: the decremented count, and whether this was the
/// one-to-zero transition at which the payload is destroyed.
pub fn strong_drop_step(strong: usize) -> (r: (usize, bool))
    requires
        strong >= 1,
    ensures
        r.0 == strong - 1,
        r.1 <==> strong == 1,
{
    (strong - 1, strong == 1)
}

/// One weak-drop step: the decremented word, and whether this was the
/// one-to-zero transition at which the block is freed.
pub fn weak_drop_step(weak: usize) -> (r: (usize, bool))
    requires
        weak >= 1,
        weak != WEAK_SENTINEL,
    ensures
        r.0 == weak - 1,
        r.1 <==> weak == 1,
{
    (weak - 1, weak == 1)
}

/// The allocation block behind one shared pointer: the two counters and the
/// payload slot.
pub struct ArcBlock<T> {
    strong: usize,
    weak: usize,
    payload: Option<T>,
}

impl<T> ArcBlock<T> {
    /// The strong count: the number of strong handles.
    pub closed spec fn strong(&self) -> usize {
        self.strong
    }

    /// The weak word: weak handles, plus one implicit unit while any strong
    /// handle exists.
    pub closed spec fn weak(&self) -> usize {
        self.weak
    }

    /// The payload slot.
    pub closed spec fn payload(&self) -> Option<T> {
        self.payload
    }

    /// The block invariant: the payload is alive exactly while a strong
    /// handle exists, the implicit weak unit is in place while it does, and
    /// at rest the weak word never holds the sentinel.
    pub open spec fn wf(&self) -> bool {
        &&& (self.payload() is Some <==> self.strong() > 0)
        &&& (self.strong() > 0 ==> self.weak() >= 1)
        &&& self.weak() != WEAK_SENTINEL
    }

    /// Whether any strong handle survives.
    pub open spec fn is_alive(&self) -> bool {
        self.strong() > 0
    }

    /// Whether the block itself would have been freed: no handles and no
    /// implicit unit remain.
    pub open spec fn is_freed(&self) -> bool {
        self.strong() == 0 && self.weak() == 0
    }

    /// Read the strong count.
    pub fn strong_count(&self) -> (n: usize)
        ensures
            n == self.strong(),
    {
        self.strong
    }

    /// Read the weak word.
    pub fn weak_count(&self) -> (n: usize)
        ensures
            n == self.weak(),
    {
        self.weak
    }

    /// Read the payload through any handle, while it is alive.
    pub fn get(&self) -> (r: &T)
        requires
            self.wf(),
            self.is_alive(),
        ensures
            self.payload() == Some(*r),
    {
        match &self.payload {
            Some(v) => v,
            None => unreached(),
        }
    }
}

/// A strong handle: it keeps the payload alive, and dropping the last one
/// destroys the payload. Handles come only out of the verified operations
/// and are consumed by their drops, so each stands for one unit of the
/// strong count of the block it was created against.
pub struct Arc<T> {
    marker: PhantomData<T>,
}

/// A weak handle: it observes the allocation without keeping the payload
/// alive, and must be upgraded to reach it. Each stands for one unit of the
/// weak word of the block it was created against.
pub struct Weak<T> {
    marker: PhantomData<T>,
}

impl<T> Arc<T> {
    /// A fresh allocation: one strong handle, strong count one, weak word
    /// one (the implicit unit), payload in place.
    pub fn new(value: T) -> (r: (Arc<T>, ArcBlock<T>))
        ensures
            r.1.wf(),
            r.1.strong() == 1,
            r.1.weak() == 1,
            r.1.payload() == Some(value),
    {
        (Arc { marker: PhantomData }, ArcBlock { strong: 1, weak: 1, payload: Some(value) })
    }

    /// Another strong handle: the strong count goes up by one. The host
    /// aborts past the ceiling; that input is excluded here.
    pub fn clone(&self, block: &mut ArcBlock<T>) -> (r: Arc<T>)
        requires
            old(block).wf(),
            old(block).is_alive(),
            old(block).strong() <= COUNT_LIMIT,
        ensures
            final(block).wf(),
            final(block).strong() == old(block).strong() + 1,
            final(block).weak() == old(block).weak(),
            final(block).payload() == old(block).payload(),
    {
        let stepped = strong_clone_step(block.strong);
        block.strong = stepped.unwrap();
        Arc { marker: PhantomData }
    }

    /// A weak handle out of a strong one: the weak word goes up by one,
    /// through the downgrade loop that backs off while an exclusivity check
    /// holds the sentinel. At rest the sentinel is never in place, so with
    /// an owned block the claim step is the only reachable one.
    pub fn downgrade(&self, block: &mut ArcBlock<T>) -> (r: Weak<T>)
        requires
            old(block).wf(),
            old(block).is_alive(),
            old(block).weak() <= COUNT_LIMIT,
        ensures
            final(block).wf(),
            final(block).strong() == old(block).strong(),
            final(block).weak() == old(block).weak() + 1,
            final(block).payload() == old(block).payload(),
    {
        match downgrade_step(block.weak) {
            DowngradeStep::Claim(n) => {
                block.weak = n;
                Weak { marker: PhantomData }
            },
            _ => unreached(),
        }
    }

    /// Exclusive access to the payload: granted exactly when this is the
    /// only strong handle and no weak handle exists. The check opens a
    /// window by swapping the sentinel into the weak word, tests the strong
    /// count inside it, and restores the word whatever the outcome, so the
    /// counts read unchanged after the call.
    pub fn get_mut<'a>(&self, block: &'a mut ArcBlock<T>) -> (r: Option<&'a mut T>)
        requires
            old(block).wf(),
            old(block).is_alive(),
        ensures
            final(block).wf(),
            final(block).strong() == old(block).strong(),
            final(block).weak() == old(block).weak(),
            r is Some <==> (old(block).strong() == 1 && old(block).weak() == 1),
            r is None ==> final(block).payload() == old(block).payload(),
            r matches Some(p) ==> old(block).payload() == Some(*p)
                && final(block).payload() == Some(*final(p)),
    {
        match exclusivity_open_step(block.weak) {
            None => None,
            Some(sentinel) => {
                block.weak = sentinel;
                let unique = unique_strong_check(block.strong);
                // The window closes on every path, so pending downgrades can
                // proceed whatever was decided inside it.
                block.weak = 1;
                if unique {
                    block.payload.as_mut()
                } else {
                    None
                }
            },
        }
    }

    /// Drop a strong handle. Returns whether this was the last one — the
    /// payload destructor runs here, exactly once — and whether dropping the
    /// implicit weak unit then also freed the block.
    pub fn drop(self, block: &mut ArcBlock<T>) -> (r: (bool, bool))
        requires
            old(block).wf(),
            old(block).is_alive(),
        ensures
            final(block).wf(),
            final(block).strong() == old(block).strong() - 1,
            r.0 <==> old(block).strong() == 1,
            !r.0 ==> final(block).weak() == old(block).weak()
                && final(block).payload() == old(block).payload(),
            r.0 ==> final(block).weak() == old(block).weak() - 1
                && final(block).payload() is None,
            r.1 <==> (old(block).strong() == 1 && old(block).weak() == 1),
            r.1 ==> final(block).is_freed(),
    {
        let (next, destroy) = strong_drop_step(block.strong);
        block.strong = next;
        if destroy {
            // The payload is destroyed in place at the one-to-zero
            // transition, then the implicit weak unit is dropped.
            let _payload = block.payload.take();
            let (next_weak, freed) = weak_drop_step(block.weak);
            block.weak = next_weak;
            (true, freed)
        } else {
            (false, false)
        }
    }
}

impl<T> Weak<T> {
    /// Another weak handle: the weak word goes up by one. The host aborts
    /// past the ceiling; that input is excluded here.
    pub fn clone(&self, block: &mut ArcBlock<T>) -> (r: Weak<T>)
        requires
            old(block).wf(),
            old(block).weak() >= 1,
            old(block).weak() <= COUNT_LIMIT,
        ensures
            final(block).wf(),
            final(block).strong() == old(block).strong(),
            final(block).weak() == old(block).weak() + 1,
            final(block).payload() == old(block).payload(),
    {
        let stepped = weak_clone_step(block.weak);
        block.weak = stepped.unwrap();
        Weak { marker: PhantomData }
    }

    /// Try to mint a strong handle: succeeds exactly when a strong handle
    /// still existed at the check instant, and fails permanently once the
    /// strong count has reached zero.
    pub fn upgrade(&self, block: &mut ArcBlock<T>) -> (r: Option<Arc<T>>)
        requires
            old(block).wf(),
            old(block).strong() <= COUNT_LIMIT,
        ensures
            final(block).wf(),
            final(block).weak() == old(block).weak(),
            final(block).payload() == old(block).payload(),
            r is Some <==> old(block).is_alive(),
            r is Some ==> final(block).strong() == old(block).strong() + 1,
            r is None ==> final(block).strong() == old(block).strong(),
    {
        match upgrade_step(block.strong) {
            UpgradeStep::Dead => None,
            UpgradeStep::Claim(n) => {
                block.strong = n;
                Some(Arc { marker: PhantomData })
            },
            UpgradeStep::Overflow => unreached(),
        }
    }

    /// Drop a weak handle. Returns whether the word reached zero — the
    /// block is freed then, strictly after the payload was destroyed.
    pub fn drop(self, block: &mut ArcBlock<T>) -> (freed: bool)
        requires
            old(block).wf(),
            old(block).weak() >= 1,
            // The dropped handle is a real one, not the implicit unit.
            old(block).is_alive() ==> old(block).weak() >= 2,
        ensures
            final(block).wf(),
            final(block).strong() == old(block).strong(),
            final(block).weak() == old(block).weak() - 1,
            final(block).payload() == old(block).payload(),
            freed <==> old(block).weak() == 1,
            freed ==> final(block).is_freed(),
    {
        let (next, freed) = weak_drop_step(block.weak);
        block.weak = next;
        freed
    }
}

/// The abstract handle census the laws below speak of: how many strong and
/// how many weak handles are live, across all threads.
pub struct Handles {
    pub strong: nat,
    pub weak: nat,
}

/// The census right after [`Arc::new`]: one strong handle, no weak one.
pub open spec fn new_handles() -> Handles {
    Handles { strong: 1, weak: 0 }
}

/// One handle operation, as some thread performs it.
pub enum ArcOp {
    /// Clone a strong handle.
    CloneStrong,
    /// Drop a strong handle.
    DropStrong,
    /// Clone a weak handle.
    CloneWeak,
    /// Drop a weak handle.
    DropWeak,
    /// Mint a weak handle out of a strong one.
    Downgrade,
    /// Try to mint a strong handle out of a weak one.
    Upgrade,
}

/// Whether a thread can perform the operation: it must hold a handle of the
/// right kind.
pub open spec fn op_enabled(s: Handles, op: ArcOp) -> bool {
    match op {
        ArcOp::CloneStrong => s.strong >= 1,
        ArcOp::DropStrong => s.strong >= 1,
        ArcOp::Downgrade => s.strong >= 1,
        ArcOp::CloneWeak => s.weak >= 1,
        ArcOp::DropWeak => s.weak >= 1,
        ArcOp::Upgrade => s.weak >= 1,
    }
}

/// The census after the operation. An upgrade succeeds exactly while a
/// strong handle survives, as [`upgrade_step`] decides it.
pub open spec fn op_apply(s: Handles, op: ArcOp) -> Handles {
    match op {
        ArcOp::CloneStrong => Handles { strong: s.strong + 1, weak: s.weak },
        ArcOp::DropStrong => Handles { strong: (s.strong - 1) as nat, weak: s.weak },
        ArcOp::Downgrade => Handles { strong: s.strong, weak: s.weak + 1 },
        ArcOp::CloneWeak => Handles { strong: s.strong, weak: s.weak + 1 },
        ArcOp::DropWeak => Handles { strong: s.strong, weak: (s.weak - 1) as nat },
        ArcOp::Upgrade => if s.strong >= 1 {
            Handles { strong: s.strong + 1, weak: s.weak }
        } else {
            s
        },
    }
}

/// Whether this operation, taken at this census, runs the payload
/// destructor: exactly the drop of the last strong handle.
pub open spec fn op_destroys(s: Handles, op: ArcOp) -> bool {
    op is DropStrong && s.strong == 1
}

/// Whether every operation of the sequence is enabled when its turn comes.
pub open spec fn ops_enabled(s: Handles, ops: Seq<ArcOp>) -> bool
    decreases ops.len(),
{
    ops.len() == 0 || (op_enabled(s, ops.first()) && ops_enabled(
        op_apply(s, ops.first()),
        ops.drop_first(),
    ))
}

/// The census after the whole sequence.
pub open spec fn apply_ops(s: Handles, ops: Seq<ArcOp>) -> Handles
    decreases ops.len(),
{
    if ops.len() == 0 {
        s
    } else {
        apply_ops(op_apply(s, ops.first()), ops.drop_first())
    }
}

/// How many times the sequence runs the payload destructor.
pub open spec fn destroy_count(s: Handles, ops: Seq<ArcOp>) -> nat
    decreases ops.len(),
{
    if ops.len() == 0 {
        0
    } else {
        (if op_destroys(s, ops.first()) {
            1nat
        } else {
            0nat
        }) + destroy_count(op_apply(s, ops.first()), ops.drop_first())
    }
}

/// The census a well-formed block records: the strong count is the number
/// of strong handles, and the weak word less the implicit unit (in place
/// exactly while the payload is alive) is the number of weak handles.
pub open spec fn census<T>(b: ArcBlock<T>) -> Handles {
    Handles {
        strong: b.strong() as nat,
        weak: if b.strong() > 0 {
            (b.weak() - 1) as nat
        } else {
            b.weak() as nat
        },
    }
}

/// Law: [`Arc::clone`] moves the census exactly as the abstract model's
/// strong clone does.
pub proof fn lemma_clone_follows_model<T>(pre: ArcBlock<T>, post: ArcBlock<T>)
    requires
        pre.wf(),
        pre.is_alive(),
        post.strong() == pre.strong() + 1,
        post.weak() == pre.weak(),
    ensures
        census(post) == op_apply(census(pre), ArcOp::CloneStrong),
        op_enabled(census(pre), ArcOp::CloneStrong),
{
}

/// Law: [`Arc::drop`] moves the census exactly as the abstract model's
/// strong drop does, and destroys the payload exactly when the model says
/// the destructor runs.
pub proof fn lemma_drop_follows_model<T>(pre: ArcBlock<T>, post: ArcBlock<T>, destroyed: bool)
    requires
        pre.wf(),
        pre.is_alive(),
        post.strong() == pre.strong() - 1,
        destroyed <==> pre.strong() == 1,
        destroyed ==> post.weak() == pre.weak() - 1,
        !destroyed ==> post.weak() == pre.weak(),
    ensures
        census(post) == op_apply(census(pre), ArcOp::DropStrong),
        destroyed == op_destroys(census(pre), ArcOp::DropStrong),
        op_enabled(census(pre), ArcOp::DropStrong),
{
}

/// Law: [`Arc::downgrade`] moves the census exactly as the abstract
/// model's downgrade does.
pub proof fn lemma_downgrade_follows_model<T>(pre: ArcBlock<T>, post: ArcBlock<T>)
    requires
        pre.wf(),
        pre.is_alive(),
        post.strong() == pre.strong(),
        post.weak() == pre.weak() + 1,
    ensures
        census(post) == op_apply(census(pre), ArcOp::Downgrade),
        op_enabled(census(pre), ArcOp::Downgrade),
{
}

/// Law: [`Weak::upgrade`] moves the census exactly as the abstract model's
/// upgrade does — one more strong handle when the payload was alive, no
/// change once it is gone.
pub proof fn lemma_upgrade_follows_model<T>(pre: ArcBlock<T>, post: ArcBlock<T>, minted: bool)
    requires
        pre.wf(),
        post.weak() == pre.weak(),
        minted <==> pre.is_alive(),
        minted ==> post.strong() == pre.strong() + 1,
        !minted ==> post.strong() == pre.strong(),
    ensures
        census(post) == op_apply(census(pre), ArcOp::Upgrade),
{
}

/// Law: [`Weak::clone`] and [`Weak::drop`] move the census exactly as the
/// abstract model's weak clone and weak drop do.
pub proof fn lemma_weak_ops_follow_model<T>(pre: ArcBlock<T>, post: ArcBlock<T>, grew: bool)
    requires
        pre.wf(),
        post.strong() == pre.strong(),
        grew ==> post.weak() == pre.weak() + 1,
        !grew ==> pre.weak() >= 1 && post.weak() == pre.weak() - 1,
        // The handle cloned or dropped is a real one, not the implicit unit.
        pre.is_alive() ==> pre.weak() >= 2,
        !pre.is_alive() ==> pre.weak() >= 1,
    ensures
        grew ==> census(post) == op_apply(census(pre), ArcOp::CloneWeak),
        !grew ==> census(post) == op_apply(census(pre), ArcOp::DropWeak),
        op_enabled(census(pre), ArcOp::CloneWeak),
        op_enabled(census(pre), ArcOp::DropWeak),
{
}

/// Law: once the last strong handle has dropped, none can come back. No
/// operation a thread can still perform — weak clones, weak drops, upgrades —
/// revives the strong count, and the destructor never runs again; in
/// particular every later upgrade fails.
pub proof fn lemma_dead_stays_dead(s: Handles, ops: Seq<ArcOp>)
    requires
        s.strong == 0,
        ops_enabled(s, ops),
    ensures
        apply_ops(s, ops).strong == 0,
        destroy_count(s, ops) == 0,
    decreases ops.len(),
{
    if ops.len() > 0 {
        lemma_dead_stays_dead(op_apply(s, ops.first()), ops.drop_first());
    }
}

/// Law: across any sequence of handle operations that threads can perform,
/// starting from a fresh allocation, the payload destructor runs at most
/// once; it has run exactly once precisely when no strong handle is left,
/// and the run is the drop of the last strong handle itself — never earlier.
pub proof fn lemma_destructor_runs_exactly_once(ops: Seq<ArcOp>)
    requires
        ops_enabled(new_handles(), ops),
    ensures
        destroy_count(new_handles(), ops) <= 1,
        destroy_count(new_handles(), ops) == 1 <==> apply_ops(new_handles(), ops).strong == 0,
{
    lemma_destructor_general(new_handles(), ops);
}

/// The inductive form of [`lemma_destructor_runs_exactly_once`], from any
/// census with at least one strong handle.
pub proof fn lemma_destructor_general(s: Handles, ops: Seq<ArcOp>)
    requires
        s.strong >= 1,
        ops_enabled(s, ops),
    ensures
        destroy_count(s, ops) <= 1,
        destroy_count(s, ops) == 1 <==> apply_ops(s, ops).strong == 0,
    decreases ops.len(),
{
    if ops.len() > 0 {
        let next = op_apply(s, ops.first());
        if next.strong == 0 {
            lemma_dead_stays_dead(next, ops.drop_first());
        } else {
            lemma_destructor_general(next, ops.drop_first());
        }
    }
}

/// Law: the exclusivity window and downgrades exclude each other. While a
/// `get_mut` check holds the weak word at the sentinel, the downgrade loop
/// only backs off and retries — it never installs a torn or incremented
/// word inside the window.
pub proof fn lemma_window_blocks_downgrade(weak: usize)
    requires
        weak == WEAK_SENTINEL,
    ensures
        downgrade_decision(weak) is Retry,
{
}

} // verus!

use sync_primitives::mutex::{
    contended_spin_step, contended_swap_step, lock_fast_step, unlock_step, Mutex, MutexAction,
    CONTENDED, LOCKED, SPIN_LIMIT, UNLOCKED,
};

#[test]
fn lock_round_trip() {
    // What one critical section writes, the next acquisition reads, exactly.
    let mut m = Mutex::new(0u64);
    let mut g = m.lock();
    g.set(123);
    let wake = m.unlock(g);
    assert!(!wake);

    let g = m.lock();
    assert_eq!(*g.get(), 123);
    assert_eq!(g.into_inner(), 123);
}

#[test]
fn contended_unlock_wakes() {
    // With a waiter recorded, the release reports that one thread must be
    // woken; without one, it does not.
    let mut m = Mutex::new('a');
    let g = m.lock();
    m.mark_contended();
    assert!(m.unlock(g));

    let g = m.lock();
    assert!(!m.unlock(g));
}

#[test]
fn guarded_pushes_serialize() {
    // Two critical sections push 1 and 2; in either order the sequence
    // holds exactly those two elements, fully, never interleaved.
    let mut first_order = Mutex::new(Vec::<u64>::new());
    let mut g = first_order.lock();
    g.get_mut().push(1);
    first_order.unlock(g);
    let mut g = first_order.lock();
    g.get_mut().push(2);
    first_order.unlock(g);
    let g = first_order.lock();
    assert_eq!(*g.get(), vec![1, 2]);
    first_order.unlock(g);

    let mut second_order = Mutex::new(Vec::<u64>::new());
    let mut g = second_order.lock();
    g.get_mut().push(2);
    second_order.unlock(g);
    let mut g = second_order.lock();
    g.get_mut().push(1);
    second_order.unlock(g);
    let g = second_order.lock();
    assert_eq!(*g.get(), vec![2, 1]);

    // Both outcomes hold the same two elements.
    let mut a = vec![1, 2];
    let mut b = vec![2, 1];
    a.sort();
    b.sort();
    assert_eq!(a, b);
}

#[test]
fn contended_path_simulation() {
    // The word as a host shell would drive it: one holder, one contender.
    let mut word = LOCKED;

    // The contender's fast path fails, its spin rounds expire.
    let (_, acquired) = lock_fast_step(word);
    assert!(!acquired);
    let mut spins_left = SPIN_LIMIT;
    while contended_spin_step(word, spins_left) {
        spins_left -= 1;
    }
    assert_eq!(spins_left, 0);

    // The contender swaps `CONTENDED` in and is sent to sleep.
    let (next, action) = contended_swap_step(word);
    word = next;
    assert_eq!(action, MutexAction::Sleep);

    // The holder releases; the word had recorded waiters, so the sleeper
    // is woken.
    assert!(unlock_step(word));
    word = UNLOCKED;

    // The woken contender swaps again and acquires; the word stays
    // `CONTENDED`, so its own release will wake the next sleeper, if any.
    let (next, action) = contended_swap_step(word);
    word = next;
    assert_eq!(action, MutexAction::Acquired);
    assert_eq!(word, CONTENDED);
    assert!(unlock_step(word));
}

#[test]
fn protocol_steps() {
    // The uncontended path takes the lock only from the unlocked word.
    assert_eq!(lock_fast_step(UNLOCKED), (LOCKED, true));
    assert_eq!(lock_fast_step(LOCKED), (LOCKED, false));
    assert_eq!(lock_fast_step(CONTENDED), (CONTENDED, false));

    // The contended path spins only while the word shows no waiter, with
    // rounds remaining.
    assert!(contended_spin_step(LOCKED, SPIN_LIMIT));
    assert!(!contended_spin_step(LOCKED, 0));
    assert!(!contended_spin_step(CONTENDED, SPIN_LIMIT));
    assert!(!contended_spin_step(UNLOCKED, SPIN_LIMIT));

    // The sleep loop's swap takes the lock exactly from the unlocked word,
    // and always leaves the contended word behind.
    assert_eq!(contended_swap_step(UNLOCKED), (CONTENDED, MutexAction::Acquired));
    assert_eq!(contended_swap_step(LOCKED), (CONTENDED, MutexAction::Sleep));
    assert_eq!(contended_swap_step(CONTENDED), (CONTENDED, MutexAction::Sleep));

    // The release wakes a sleeper exactly when waiters were recorded.
    assert!(unlock_step(CONTENDED));
    assert!(!unlock_step(LOCKED));
}

use sync_primitives::condition_variable::Condvar;
use sync_primitives::mutex::Mutex;

#[test]
fn condvar() {
    // A waiter loops on its predicate; a notifier sets the value to 123 and
    // bumps the counter. A spurious wakeup before the notify sends the
    // waiter back to sleep without changing what it observes; the wakeup
    // count stays small.
    let mut mutex = Mutex::new(0u64);
    let condvar = Condvar::new();

    let mut wakeups = 0u32;
    let mut m = mutex.lock();
    while *m.get() < 100 {
        let (snapshot, _wake) = condvar.wait_release(&mut mutex, m);

        // A spurious return: the counter still equals the snapshot, so a
        // real waiter would simply have kept sleeping.
        if wakeups == 0 {
            assert!(condvar.should_block(snapshot));
        }

        // The notifier runs its own critical section, then notifies.
        let mut g = mutex.lock();
        g.set(123);
        mutex.unlock(g);

        m = condvar.wait_resume(&mut mutex);
        wakeups += 1;
    }

    assert_eq!(*m.get(), 123);
    assert!(wakeups < 10);
}

#[test]
fn notify_after_snapshot_is_not_lost() {
    let mut mutex = Mutex::new(false);
    let mut condvar = Condvar::new();

    // The waiter snapshots the counter and releases the lock.
    let g = mutex.lock();
    let (snapshot, _wake) = condvar.wait_release(&mut mutex, g);
    assert!(condvar.should_block(snapshot));

    // A notification that happens after the snapshot bumps the counter, so
    // the waiter's blocking check fails: the wake cannot be missed.
    condvar.notify_one();
    assert!(!condvar.should_block(snapshot));

    let g = condvar.wait_resume(&mut mutex);
    mutex.unlock(g);
}

#[test]
fn notify_all_also_bumps() {
    let condvar_snapshot = 0u32;
    let mut condvar = Condvar::new();
    assert!(condvar.should_block(condvar_snapshot));
    condvar.notify_all();
    assert!(!condvar.should_block(condvar_snapshot));
}

#[test]
fn counter_bump_wraps_silently() {
    assert_eq!(sync_primitives::bump(0), 1);
    assert_eq!(sync_primitives::bump(u32::MAX), 0);
}

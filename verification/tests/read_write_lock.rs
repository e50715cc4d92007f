use sync_primitives::read_write_lock::{
    read_step, read_unlock_step, write_sleep_check, write_step, ReadStep, RwLock, WriteStep,
    WORD_LIMIT, WRITE_LOCKED,
};

#[test]
fn readers_share_writer_excludes() {
    // Three readers hold the lock at once and observe the same, unmutated
    // value; the writer then takes it exclusively and the next reader sees
    // the new value.
    let mut lock = RwLock::new(7u64);
    let g1 = lock.read();
    let g2 = lock.read();
    let g3 = lock.read();
    assert_eq!(*lock.get(), 7);
    assert_eq!(*lock.get(), 7);
    assert_eq!(*lock.get(), 7);
    assert!(!lock.end_read(g1));
    assert!(!lock.end_read(g2));
    assert!(!lock.end_read(g3));

    let mut g = lock.write();
    g.set(8);
    lock.end_write(g);

    let g = lock.read();
    assert_eq!(*lock.get(), 8);
    lock.end_read(g);
}

#[test]
fn waiting_writer_blocks_new_readers() {
    // Two readers are in; a writer records itself. The word goes odd, so
    // every new read attempt blocks; the release of the last reader in the
    // way is the tie-break that wakes the writer, and the writer's claim
    // then succeeds.
    let mut lock = RwLock::new('x');
    let g1 = lock.read();
    let g2 = lock.read();
    lock.mark_writer_waiting();

    assert!(matches!(read_step(5), ReadStep::Block));

    assert!(!lock.end_read(g1));
    let woke_writer = lock.end_read(g2);
    assert!(woke_writer);

    let g = lock.write();
    assert_eq!(*g.get(), 'x');
    lock.end_write(g);
}

#[test]
fn read_protocol_steps() {
    // Even words below the cap admit a reader; odd words block; the cap is
    // exhaustion, where the host aborts.
    assert!(matches!(read_step(0), ReadStep::Acquire(2)));
    assert!(matches!(read_step(6), ReadStep::Acquire(8)));
    assert!(matches!(read_step(1), ReadStep::Block));
    assert!(matches!(read_step(WRITE_LOCKED), ReadStep::Block));
    assert!(matches!(read_step(WORD_LIMIT - 1), ReadStep::Overflow));

    // A release subtracts one reader; the tie-break word — one reader left
    // plus the waiting bit — wakes the writer, and only it.
    assert_eq!(read_unlock_step(3), (1, true));
    assert_eq!(read_unlock_step(5), (3, false));
    assert_eq!(read_unlock_step(2), (0, false));
}

#[test]
fn write_protocol_steps() {
    // A writer claims when no reader is active, waiting bit or not; sets
    // the bit on an even word with readers; sleeps once the bit is set.
    assert!(matches!(write_step(0), WriteStep::Claim));
    assert!(matches!(write_step(1), WriteStep::Claim));
    assert!(matches!(write_step(2), WriteStep::SetWaitBit(3)));
    assert!(matches!(write_step(3), WriteStep::Sleep));
    assert!(matches!(write_step(WRITE_LOCKED), WriteStep::Sleep));

    // Between reading the wake token and sleeping, the writer rechecks the
    // word and sleeps only while it still shows contention.
    assert!(write_sleep_check(2));
    assert!(write_sleep_check(WRITE_LOCKED));
    assert!(!write_sleep_check(0));
    assert!(!write_sleep_check(1));
}

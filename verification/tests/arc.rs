use sync_primitives::arc::{
    downgrade_step, strong_clone_step, upgrade_step, weak_clone_step, Arc, DowngradeStep,
    UpgradeStep, COUNT_LIMIT, WEAK_SENTINEL,
};

#[test]
fn arc() {
    // Two strong handles sharing a string payload; the payload is destroyed
    // exactly once, when the second handle drops.
    let (x, mut block) = Arc::new("hello");
    let y = x.clone(&mut block);
    assert_eq!(block.strong_count(), 2);
    assert_eq!(*block.get(), "hello");

    // x is dropped, but y still exists, so nothing is destroyed.
    let (destroyed, freed) = x.drop(&mut block);
    assert!(!destroyed);
    assert!(!freed);
    assert_eq!(*block.get(), "hello");

    // Dropping y destroys the payload, exactly now, and frees the block.
    let (destroyed, freed) = y.drop(&mut block);
    assert!(destroyed);
    assert!(freed);
}

#[test]
fn arc_weak() {
    // One strong handle and two weak ones.
    let (x, mut block) = Arc::new("hello");
    let y = x.downgrade(&mut block);
    let z = x.downgrade(&mut block);
    assert_eq!(block.weak_count(), 3);

    // A weak handle upgrades while the strong handle survives.
    let up = y.upgrade(&mut block);
    assert!(up.is_some());
    assert_eq!(*block.get(), "hello");
    let (destroyed, _) = up.unwrap().drop(&mut block);
    assert!(!destroyed);
    let extra = z.upgrade(&mut block);
    assert!(extra.is_some());
    assert_eq!(block.strong_count(), 2);
    let (destroyed, _) = extra.unwrap().drop(&mut block);
    assert!(!destroyed);

    // Dropping the last strong handle destroys the payload, and upgrades
    // fail from then on, permanently.
    let (destroyed, freed) = x.drop(&mut block);
    assert!(destroyed);
    assert!(!freed);
    assert!(y.upgrade(&mut block).is_none());
    assert!(z.upgrade(&mut block).is_none());

    // The block itself is freed only when the last weak handle drops.
    assert!(!y.drop(&mut block));
    assert!(z.drop(&mut block));
}

#[test]
fn get_mut_requires_uniqueness() {
    let (x, mut block) = Arc::new(10u64);

    // A second strong handle denies exclusive access.
    let y = x.clone(&mut block);
    assert!(x.get_mut(&mut block).is_none());
    let (destroyed, _) = y.drop(&mut block);
    assert!(!destroyed);

    // A weak handle denies it too.
    let w = x.downgrade(&mut block);
    assert!(x.get_mut(&mut block).is_none());
    // The exclusivity window restored the weak word on the failing path.
    assert_eq!(block.weak_count(), 2);
    assert!(!w.drop(&mut block));

    // Alone, the strong handle gets exclusive access.
    let unique = x.get_mut(&mut block);
    assert!(unique.is_some());
    *unique.unwrap() = 11;
    assert_eq!(*block.get(), 11);
    assert_eq!(block.weak_count(), 1);
    let (destroyed, freed) = x.drop(&mut block);
    assert!(destroyed && freed);
}

#[test]
fn counter_steps_at_the_edges() {
    // Clone steps increment until the ceiling, where the host must abort.
    assert_eq!(strong_clone_step(1), Some(2));
    assert_eq!(strong_clone_step(COUNT_LIMIT), Some(COUNT_LIMIT + 1));
    assert_eq!(strong_clone_step(COUNT_LIMIT + 1), None);
    assert_eq!(weak_clone_step(COUNT_LIMIT + 1), None);

    // An upgrade is dead at zero, permanently; alive counts claim one more.
    assert!(matches!(upgrade_step(0), UpgradeStep::Dead));
    assert!(matches!(upgrade_step(1), UpgradeStep::Claim(2)));
    assert!(matches!(upgrade_step(COUNT_LIMIT + 1), UpgradeStep::Overflow));

    // A downgrade backs off at the exclusivity sentinel instead of tearing
    // the word; otherwise it claims one more.
    assert!(matches!(downgrade_step(WEAK_SENTINEL), DowngradeStep::Retry));
    assert!(matches!(downgrade_step(1), DowngradeStep::Claim(2)));
    assert!(matches!(downgrade_step(COUNT_LIMIT + 1), DowngradeStep::Overflow));
}

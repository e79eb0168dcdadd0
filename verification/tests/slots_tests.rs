use portscan::slots::SlotPool;

#[test]
fn pool_without_slots_cannot_be_made() {
    assert!(SlotPool::new(0).is_none());
}

#[test]
fn fresh_pool_holds_nothing() {
    let pool = SlotPool::new(3).unwrap();
    assert_eq!(pool.limit(), 3);
    assert_eq!(pool.held(), 0);
    assert_eq!(pool.available(), 3);
}

#[test]
fn pool_grants_no_more_than_its_limit() {
    let mut pool = SlotPool::new(3).unwrap();
    assert!(pool.try_acquire());
    assert!(pool.try_acquire());
    assert!(pool.try_acquire());
    assert_eq!(pool.held(), 3);
    assert_eq!(pool.available(), 0);
    assert!(!pool.try_acquire());
    assert_eq!(pool.held(), 3);
    assert_eq!(pool.limit(), 3);
}

#[test]
fn released_slot_can_be_granted_again() {
    let mut pool = SlotPool::new(1).unwrap();
    assert!(pool.try_acquire());
    assert!(!pool.try_acquire());
    assert!(pool.release());
    assert_eq!(pool.held(), 0);
    assert!(pool.try_acquire());
    assert_eq!(pool.held(), 1);
}

#[test]
fn release_without_outstanding_slot_changes_nothing() {
    let mut pool = SlotPool::new(2).unwrap();
    assert!(!pool.release());
    assert_eq!(pool.held(), 0);
    assert_eq!(pool.available(), 2);
}

#[test]
fn held_never_exceeds_limit_under_mixed_use() {
    let mut pool = SlotPool::new(4).unwrap();
    let mut expected: usize = 0;
    for round in 0..200usize {
        if round % 3 == 2 {
            let released = pool.release();
            assert_eq!(released, expected > 0);
            if released {
                expected -= 1;
            }
        } else {
            let granted = pool.try_acquire();
            assert_eq!(granted, expected < 4);
            if granted {
                expected += 1;
            }
        }
        assert_eq!(pool.held(), expected);
        assert!(pool.held() <= pool.limit());
    }
}

use commonlibsse_ng::poison::{Flag, PoisonError, TryLockError};
use commonlibsse_ng::shared_rwlock::{dur2timeout, SharedRwLock};

/// A shared counter incremented under the write lock loses no update:
/// after M guarded increments its value is exactly M.
#[test]
fn test_counter_increments_under_lock() {
    let m = 1000u64;
    let mut lock: SharedRwLock<u64> = SharedRwLock::new(vec![0]);
    for _ in 0..m {
        let guard = lock.write().expect("the lock is not poisoned");
        let current = *lock.get(0);
        lock.set(0, current + 1);
        lock.drop_write(guard, false);
    }
    let guard = lock.read().expect("the lock is not poisoned");
    assert_eq!(*lock.get(0), m);
    lock.drop_read(guard);
}

/// A writer excludes every other access; readers exclude writers but not
/// each other.
#[test]
fn test_try_lock_exclusion() {
    let mut lock: SharedRwLock<u64> = SharedRwLock::new(vec![7]);

    let w = lock.try_write().expect("nothing holds the lock");
    assert!(matches!(lock.try_read(), Err(TryLockError::WouldBlock)));
    assert!(matches!(lock.try_write(), Err(TryLockError::WouldBlock)));
    lock.drop_write(w, false);

    let r1 = lock.try_read().expect("nothing holds the lock");
    let r2 = lock.try_read().expect("readers share");
    assert!(matches!(lock.try_write(), Err(TryLockError::WouldBlock)));
    lock.drop_read(r1);
    lock.drop_read(r2);

    let w = lock.try_write().expect("all readers left");
    lock.drop_write(w, false);
}

/// A critical section that ends on a failure path poisons the lock;
/// later acquisitions report it until the poison is cleared.
#[test]
fn test_poisoning_and_recovery() {
    let mut lock: SharedRwLock<u64> = SharedRwLock::new(vec![7]);
    assert!(!lock.is_poisoned());

    let w = lock.write().expect("the lock is not poisoned");
    lock.set(0, 8);
    lock.drop_write(w, true); // the section ended failing
    assert!(lock.is_poisoned());

    // a read still grants access, with the error carrying the guard
    let e = lock.read().expect_err("the lock is poisoned");
    let guard = e.into_inner();
    assert_eq!(*lock.get(0), 8);
    lock.drop_read(guard);

    lock.clear_poison();
    assert!(!lock.is_poisoned());
    let r = lock.read().expect("the poison is cleared");
    lock.drop_read(r);
}

/// Downgrading turns the exclusive access into a shared one without
/// letting the data change in between.
#[test]
fn test_downgrade() {
    let mut lock: SharedRwLock<u64> = SharedRwLock::new(vec![1]);
    let w = lock.write().expect("the lock is not poisoned");
    lock.set(0, 2);
    let r = lock.downgrade(w);
    assert_eq!(*lock.get(0), 2);
    assert!(matches!(lock.try_write(), Err(TryLockError::WouldBlock)));
    lock.drop_read(r);
}

#[test]
fn test_poison_flag() {
    let mut flag = Flag::new();
    assert!(!flag.get());
    assert!(flag.borrow().is_ok());

    let guard = flag.guard(false).expect("no poison yet");
    flag.done(&guard, true);
    assert!(flag.get());
    assert!(flag.borrow().is_err());

    // a failure that was already under way when the section began does
    // not poison
    let mut flag2 = Flag::new();
    let guard2 = flag2.guard(true).expect("no poison yet");
    flag2.done(&guard2, true);
    assert!(!flag2.get());

    flag.clear();
    assert!(!flag.get());
}

#[test]
fn test_poison_error_accessors() {
    let mut e = PoisonError::new(41);
    assert_eq!(*e.get_ref(), 41);
    *e.get_mut() += 1;
    assert_eq!(e.into_inner(), 42);

    let te: TryLockError<u32> = TryLockError::from(PoisonError::new(7));
    assert!(matches!(te, TryLockError::Poisoned(p) if *p.get_ref() == 7));
}

#[test]
fn test_map_result() {
    let ok: Result<u32, PoisonError<u32>> = Ok(3);
    assert_eq!(commonlibsse_ng::poison::map_result(ok, |x| x * 2), Ok(6));
    let err: Result<u32, PoisonError<u32>> = Err(PoisonError::new(3));
    let mapped = commonlibsse_ng::poison::map_result(err, |x| x * 2);
    assert_eq!(*mapped.unwrap_err().get_ref(), 6);
}

#[test]
fn test_dur2timeout() {
    assert_eq!(dur2timeout(0, 0), 0);
    assert_eq!(dur2timeout(1, 0), 1000);
    assert_eq!(dur2timeout(1, 500_000), 1001); // partial milliseconds round up
    assert_eq!(dur2timeout(0, 2_000_000), 2);
    assert_eq!(dur2timeout(u64::MAX, 0), u32::MAX); // too long means wait forever
    assert_eq!(dur2timeout(4_294_968, 0), u32::MAX);
}

use spinlock::Mutex;

/// Acquiring on one path and releasing before an early return: the lock must
/// come back acquirable.
fn bump_and_bail(mutex: &mut Mutex<u64>, bail: bool) -> bool {
    let mut guard = mutex.lock();
    if bail {
        *guard.get_mut() += 1;
        mutex.unlock(guard);
        return true;
    }
    *guard.get_mut() += 2;
    mutex.unlock(guard);
    false
}

#[test]
fn smoke() {
    let mut mutex = Mutex::new(0u64);

    for _ in 0u32..10u32 {
        for _ in 0u32..100u32 {
            let mut value = mutex.lock();
            *value.get_mut() += 1;
            mutex.unlock(value);
        }
    }

    let guard = mutex.lock();
    assert_eq!(1000, *guard.get());
}

#[test]
fn read_write_access() {
    let mut mutex = Mutex::new(5u64);

    let mut guard = mutex.lock();
    assert_eq!(5, *guard.get());

    *guard.get_mut() = 7;
    assert_eq!(7, *guard.get());
    mutex.unlock(guard);

    let guard = mutex.lock();
    assert_eq!(7, *guard.get());
    mutex.unlock(guard);
}

#[test]
fn release_on_early_return() {
    let mut mutex = Mutex::new(0u64);

    assert!(bump_and_bail(&mut mutex, true));

    // the early-return path released the lock: reacquisition succeeds
    let guard = mutex.lock();
    assert_eq!(1, *guard.get());
    mutex.unlock(guard);
}

#[test]
fn release_on_fall_through() {
    let mut mutex = Mutex::new(0u64);

    assert!(!bump_and_bail(&mut mutex, false));

    // the fall-through path released the lock: reacquisition succeeds
    let guard = mutex.lock();
    assert_eq!(2, *guard.get());
    mutex.unlock(guard);
}

#[test]
fn no_second_guard_while_held() {
    let mut mutex = Mutex::new(41u64);

    let mut guard = mutex.lock();
    *guard.get_mut() = 42;

    // while the guard is live, every claim attempt fails and changes nothing
    assert!(mutex.try_lock().is_none());
    assert!(mutex.try_lock().is_none());

    mutex.unlock(guard);

    // once released, the very next attempt succeeds
    let reacquired = mutex.try_lock();
    assert!(reacquired.is_some());
    let guard = reacquired.unwrap();
    assert_eq!(42, *guard.get());
    mutex.unlock(guard);
}

#[test]
fn fresh_lock_acquirable_at_once() {
    let mut mutex = Mutex::new(9u64);

    let attempt = mutex.try_lock();
    assert!(attempt.is_some());
    let guard = attempt.unwrap();
    assert_eq!(9, *guard.get());
    mutex.unlock(guard);
}

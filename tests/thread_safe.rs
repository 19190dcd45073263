use valkey_module::context::Context;
use valkey_module::thread_safe::{increment_under_lock, run_increments, HostLock, LockError, ValkeyGILGuard};

#[test]
fn interleaved_locked_increments_count_all() {
    // ten logical threads, a hundred increments each, interleaved round robin
    let mut lock = HostLock::new();
    let mut counter = ValkeyGILGuard::new(0u64);
    let mut left = [100u32; 10];
    let mut holding: Option<(u64, _)> = None;
    let mut busy_refusals = 0u32;
    let mut step = 0u64;
    while left.iter().any(|n| *n > 0) {
        let t = step % 10;
        step += 1;
        if left[t as usize] == 0 {
            continue;
        }
        match holding.take() {
            Some((holder, token)) => {
                // the holder finishes its critical section: read, write, release
                let v = *counter.lock(&token);
                counter.set(&token, v + 1);
                left[holder as usize] -= 1;
                assert_eq!(lock.release(holder, token), Ok(()));
                // the asking thread was refused while the lock was held
                busy_refusals += 1;
            }
            None => match lock.acquire(t) {
                Ok(token) => holding = Some((t, token)),
                Err(e) => panic!("unexpected refusal {:?}", e),
            },
        }
        if let Some((holder, _)) = &holding {
            let other = (*holder + 1) % 10;
            assert_eq!(lock.acquire(other).err(), Some(LockError::Busy));
        }
    }
    let ctx = Context::new(0);
    let token = ctx.lock_token();
    assert_eq!(*counter.lock(&token), 1000);
    assert!(busy_refusals > 0);
    assert_eq!(lock.get_holder(), None);
}

#[test]
fn reentrant_acquire_is_refused() {
    let mut lock = HostLock::new();
    let token = lock.acquire(3).ok().unwrap();
    assert_eq!(lock.acquire(3).err(), Some(LockError::Reentrant));
    assert_eq!(lock.acquire(4).err(), Some(LockError::Busy));
    assert_eq!(lock.get_holder(), Some(3));
    assert_eq!(lock.release(3, token), Ok(()));
    assert_eq!(lock.get_holder(), None);
    assert!(lock.acquire(4).is_ok());
}

#[test]
fn release_by_other_thread_fails() {
    let mut lock = HostLock::new();
    let token = lock.acquire(1).ok().unwrap();
    assert_eq!(lock.release(2, token), Err(LockError::NotHeld));
    assert_eq!(lock.get_holder(), Some(1));
}

#[test]
fn guarded_value_access_with_token() {
    let ctx = Context::new(0);
    let token = ctx.lock_token();
    let mut g = ValkeyGILGuard::new(String::from("a"));
    assert_eq!(g.lock(&token), "a");
    g.lock_mut(&token).push('b');
    assert_eq!(g.lock(&token), "ab");
    g.set(&token, String::from("c"));
    assert_eq!(g.lock(&token), "c");
}

#[test]
fn with_lock_runs_section_and_releases() {
    let mut lock = HostLock::new();
    let mut counter = ValkeyGILGuard::new(41u64);
    let r = lock.with_lock(2, |token| {
        let v = *counter.lock(token);
        counter.set(token, v + 1);
        v
    });
    assert_eq!(r, Ok(41));
    assert_eq!(lock.get_holder(), None);
    let _held = lock.acquire(5).ok().unwrap();
    assert_eq!(lock.with_lock(5, |_| 0u8), Err(LockError::Reentrant));
    assert_eq!(lock.with_lock(6, |_| 0u8), Err(LockError::Busy));
    assert_eq!(lock.get_holder(), Some(5));
    let ctx = Context::new(0);
    assert_eq!(*counter.lock(&ctx.lock_token()), 42);
}

#[test]
fn thousand_increments_from_ten_threads() {
    let mut lock = HostLock::new();
    let mut counter = ValkeyGILGuard::new(0u64);
    // thread 0 holds the lock for a while: the others are refused meanwhile
    let held = lock.acquire(0).ok().unwrap();
    for t in 1..10u64 {
        assert_eq!(increment_under_lock(&mut lock, t, &mut counter), Err(LockError::Busy));
    }
    assert_eq!(increment_under_lock(&mut lock, 0, &mut counter), Err(LockError::Reentrant));
    assert_eq!(lock.release(0, held), Ok(()));
    for round in 0..100u64 {
        for t in 0..10u64 {
            let thread = (t + round) % 10;
            assert_eq!(increment_under_lock(&mut lock, thread, &mut counter), Ok(()));
        }
    }
    let ctx = Context::new(0);
    assert_eq!(*counter.lock(&ctx.lock_token()), 1000);
}

#[test]
fn scheduled_increments_from_ten_threads_count_to_thousand() {
    let mut lock = HostLock::new();
    let mut counter = ValkeyGILGuard::new(0u64);
    // 10 threads, 100 updates each, interleaved unevenly
    let mut schedule = Vec::new();
    for round in 0..100u64 {
        for t in 0..10u64 {
            schedule.push((t * 7 + round * 3) % 10);
        }
    }
    assert_eq!(run_increments(&mut lock, &mut counter, &schedule), 1000);
    let ctx = Context::new(0);
    assert_eq!(*counter.lock(&ctx.lock_token()), 1000);
    assert_eq!(lock.get_holder(), None);
}

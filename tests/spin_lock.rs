use oneshot_sync::spin_lock::{Guard, SpinLock};

fn acquire<T>(lock: &SpinLock<T>) -> Guard<'_, T> {
    loop {
        if let Some(g) = lock.try_lock() {
            return g;
        }
        std::hint::spin_loop();
    }
}

#[test]
fn counter_reaches_n_times_m() {
    let lock = SpinLock::new(0u64);
    let n = 8u64;
    let m = 1000u64;
    for _ in 0..n {
        for _ in 0..m {
            let mut g = acquire(&lock);
            *g.get_mut() += 1;
        }
    }
    assert_eq!(*acquire(&lock).get(), n * m);
}

#[test]
fn hundred_pushes_all_kept() {
    let lock = SpinLock::new(Vec::new());
    for i in 0..100u32 {
        acquire(&lock).get_mut().push(i);
    }
    let g = acquire(&lock);
    let mut got = g.get().clone();
    assert_eq!(got.len(), 100);
    got.sort();
    assert_eq!(got, (0..100u32).collect::<Vec<u32>>());
}

#[test]
fn dropping_guard_releases_lock() {
    let lock = SpinLock::new(String::from("a"));
    {
        let mut g = acquire(&lock);
        assert_eq!(g.replace(String::from("b")), "a");
    }
    let g = acquire(&lock);
    assert_eq!(g.get(), "b");
}

#[test]
fn replace_hands_back_previous_payload() {
    let lock = SpinLock::new(3i32);
    let mut g = acquire(&lock);
    assert_eq!(g.replace(4), 3);
    assert_eq!(*g.get(), 4);
    *g.get_mut() -= 10;
    assert_eq!(g.replace(0), -6);
}

#[test]
fn held_lock_refuses_second_attempt() {
    let lock = SpinLock::new(1u8);
    let g = lock.try_lock();
    assert!(g.is_some());
    assert!(lock.try_lock().is_none());
    drop(g);
    assert!(lock.try_lock().is_some());
}

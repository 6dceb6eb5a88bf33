use wdk::{
    lock_acquired, nt_success, LockHandle, SpinLock, WaitLock, NTSTATUS, STATUS_INSUFFICIENT_RESOURCES,
    STATUS_SUCCESS, STATUS_TIMEOUT,
};

const HANDLE: LockHandle = LockHandle { raw: 0x1000 };

fn wait_lock<T>(init: T) -> WaitLock<T> {
    match WaitLock::try_new(init, STATUS_SUCCESS, HANDLE) {
        Ok(l) => l,
        Err(s) => panic!("construction failed with {s}"),
    }
}

#[test]
fn status_success_predicate() {
    assert!(nt_success(STATUS_SUCCESS));
    assert!(nt_success(STATUS_TIMEOUT));
    assert!(nt_success(i32::MAX));
    assert!(!nt_success(-1));
    assert!(!nt_success(STATUS_INSUFFICIENT_RESOURCES));
    assert!(!nt_success(i32::MIN));
}

#[test]
fn acquisition_status_predicate() {
    assert!(lock_acquired(STATUS_SUCCESS));
    assert!(lock_acquired(1));
    assert!(!lock_acquired(STATUS_TIMEOUT));
    assert!(!lock_acquired(STATUS_INSUFFICIENT_RESOURCES));
    assert_eq!(STATUS_INSUFFICIENT_RESOURCES as u32, 0xC000_009A);
    assert_eq!(STATUS_TIMEOUT, 0x102);
}

#[test]
fn wait_lock_counts_up_sequentially() {
    let mut l = wait_lock(0i32);
    assert_eq!(l.with(STATUS_SUCCESS, |v| { *v += 1; *v }), Ok(1));
    assert_eq!(l.with(STATUS_SUCCESS, |v| { *v += 1; *v }), Ok(2));
}

#[test]
fn wait_lock_first_access_sees_initial_value() {
    let mut l = wait_lock(vec![3u8, 1, 4]);
    assert_eq!(l.with(STATUS_SUCCESS, |v| v.clone()), Ok(vec![3, 1, 4]));
    let mut s = wait_lock(-17i64);
    assert_eq!(s.with(STATUS_SUCCESS, |v| *v), Ok(-17));
}

#[test]
fn wait_lock_timeout_skips_callback() {
    let mut l = wait_lock(5u32);
    let mut called = false;
    let r = l.with(STATUS_TIMEOUT, |v| {
        called = true;
        *v += 1;
    });
    assert_eq!(r, Err(STATUS_TIMEOUT));
    assert!(!called);
    assert_eq!(l.with(STATUS_SUCCESS, |v| *v), Ok(5));
}

#[test]
fn wait_lock_failed_acquire_returns_status() {
    let mut l = wait_lock(String::from("kept"));
    let denied: NTSTATUS = STATUS_INSUFFICIENT_RESOURCES;
    assert_eq!(l.with(denied, |v| v.push('!')), Err(denied));
    assert_eq!(l.with(STATUS_SUCCESS, |v| v.clone()), Ok(String::from("kept")));
}

#[test]
fn wait_lock_repeated_accesses_lose_no_update() {
    let mut l = wait_lock(0u64);
    let statuses = [STATUS_SUCCESS, STATUS_TIMEOUT, STATUS_SUCCESS, -5, STATUS_SUCCESS, 7];
    let mut granted = 0u64;
    for s in statuses {
        match l.with(s, |v| { *v += 10; *v }) {
            Ok(seen) => {
                granted += 1;
                assert_eq!(seen, granted * 10);
            }
            Err(e) => assert_eq!(e, s),
        }
    }
    assert_eq!(granted, 4);
    assert_eq!(l.with(STATUS_SUCCESS, |v| *v), Ok(40));
}

#[test]
fn wait_lock_construction_failure_gives_status() {
    let r = WaitLock::try_new(0i32, STATUS_INSUFFICIENT_RESOURCES, HANDLE);
    assert!(matches!(r, Err(STATUS_INSUFFICIENT_RESOURCES)));
    let r = WaitLock::create(vec![1u8], -1, HANDLE);
    assert!(matches!(r, Err(-1)));
}

#[test]
fn wait_lock_create_is_try_new() {
    let mut l = match WaitLock::create(9u8, STATUS_SUCCESS, HANDLE) {
        Ok(l) => l,
        Err(s) => panic!("construction failed with {s}"),
    };
    assert_eq!(l.handle(), HANDLE);
    assert_eq!(l.with(STATUS_SUCCESS, |v| *v), Ok(9));
}

#[test]
fn wait_lock_keeps_its_handle() {
    let h = LockHandle { raw: 42 };
    let mut l = match WaitLock::try_new(1u8, STATUS_TIMEOUT, h) {
        Ok(l) => l,
        Err(s) => panic!("construction failed with {s}"),
    };
    let _ = l.with(STATUS_SUCCESS, |v| *v += 1);
    let _ = l.with(STATUS_TIMEOUT, |v| *v += 1);
    assert_eq!(l.handle(), h);
}

#[test]
fn spin_lock_pushes_three_times() {
    let mut l = match SpinLock::try_new(Vec::<u8>::new(), STATUS_SUCCESS, HANDLE) {
        Ok(l) => l,
        Err(s) => panic!("construction failed with {s}"),
    };
    l.with(|v| v.push(7));
    l.with(|v| v.push(7));
    l.with(|v| v.push(7));
    assert_eq!(l.with(|v| v.clone()), vec![7, 7, 7]);
    assert_eq!(l.handle(), HANDLE);
}

#[test]
fn spin_lock_first_access_sees_initial_value() {
    let mut l = match SpinLock::create((2u8, 'x'), STATUS_SUCCESS, HANDLE) {
        Ok(l) => l,
        Err(s) => panic!("construction failed with {s}"),
    };
    assert_eq!(l.with(|v| *v), (2, 'x'));
}

#[test]
fn spin_lock_construction_failure_gives_status() {
    let r = SpinLock::try_new(0i32, STATUS_INSUFFICIENT_RESOURCES, HANDLE);
    assert!(matches!(r, Err(STATUS_INSUFFICIENT_RESOURCES)));
    let r = SpinLock::create(0i32, i32::MIN, HANDLE);
    assert!(matches!(r, Err(i32::MIN)));
}

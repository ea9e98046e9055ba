use pylon_shimload::error::PylonError;
use pylon_shimload::runtime::{init, shutdown, RuntimeGuard, RuntimeStart, RuntimeState};

fn shim_missing() -> Result<(), PylonError> {
    Err(PylonError::Msg("no shim".to_string()))
}

#[test]
fn fresh_state_is_idle() {
    let st = RuntimeState::new();
    assert_eq!(st.leases(), 0);
    assert!(!st.is_initialized());
}

#[test]
fn first_acquire_initializes_and_later_ones_do_not() {
    let mut st = RuntimeState::new();
    let (a, start_a) = st.acquire(Ok(())).unwrap();
    assert_eq!(start_a, RuntimeStart::Initialize);
    let (b, start_b) = st.acquire(shim_missing()).unwrap();
    assert_eq!(start_b, RuntimeStart::AlreadyInitialized);
    assert!(a.is_active() && b.is_active());
    assert_eq!(st.leases(), 2);
    assert!(st.is_initialized());
}

#[test]
fn failed_shim_load_leaves_state_unchanged() {
    let mut st = RuntimeState::new();
    match st.acquire(shim_missing()) {
        Err(PylonError::Msg(m)) => assert_eq!(m, "no shim"),
        _ => panic!("expected the shim error"),
    }
    assert_eq!(st.leases(), 0);
    assert!(!st.is_initialized());
}

#[test]
fn last_release_terminates() {
    let mut st = RuntimeState::new();
    let (mut a, _) = st.acquire(Ok(())).unwrap();
    let (mut b, _) = st.acquire(Ok(())).unwrap();
    assert!(!a.release(&mut st));
    assert!(!a.is_active());
    assert!(st.is_initialized());
    assert!(b.release(&mut st));
    assert_eq!(st.leases(), 0);
    assert!(!st.is_initialized());
}

#[test]
fn releasing_twice_counts_once() {
    let mut st = RuntimeState::new();
    let (mut a, _) = st.acquire(Ok(())).unwrap();
    let (_b, _) = st.acquire(Ok(())).unwrap();
    assert!(!a.release(&mut st));
    assert!(!a.release(&mut st));
    assert_eq!(st.leases(), 1);
}

#[test]
fn releasing_an_inactive_lease_is_a_no_op() {
    let mut st = RuntimeState::new();
    let (mut a, _) = st.acquire(Ok(())).unwrap();
    assert!(a.release(&mut st));
    assert!(!a.release(&mut st));
    assert_eq!(st.leases(), 0);
    assert!(!st.is_initialized());
}

#[test]
fn duplicate_counts_the_copy() {
    let mut st = RuntimeState::new();
    let (a, _) = st.acquire(Ok(())).unwrap();
    let mut c = a.duplicate(&mut st);
    assert!(c.is_active());
    assert_eq!(st.leases(), 2);
    assert!(!c.release(&mut st));
    assert_eq!(st.leases(), 1);
    assert!(st.is_initialized());
}

#[test]
fn duplicate_of_released_lease_is_inactive() {
    let mut st = RuntimeState::new();
    let (mut a, _) = st.acquire(Ok(())).unwrap();
    let (_b, _) = st.acquire(Ok(())).unwrap();
    a.release(&mut st);
    let c = a.duplicate(&mut st);
    assert!(!c.is_active());
    assert_eq!(st.leases(), 1);
}

#[test]
fn shutdown_refused_while_handles_alive() {
    let mut st = RuntimeState::new();
    let (mut a, _) = st.acquire(Ok(())).unwrap();
    match shutdown(&mut st) {
        Err(PylonError::Msg(m)) => assert_eq!(m, "Cannot shutdown runtime while handles are alive"),
        _ => panic!("shutdown should be refused"),
    }
    assert_eq!(st.leases(), 1);
    assert!(st.is_initialized());
    a.release(&mut st);
    assert_eq!(shutdown(&mut st).unwrap(), false);
}

#[test]
fn shutdown_of_an_initialized_idle_runtime_terminates() {
    let mut st = RuntimeState::new();
    assert_eq!(shutdown(&mut st).unwrap(), false);
    let (guard, start) = init(&mut st, Ok(())).unwrap();
    assert_eq!(start, RuntimeStart::Initialize);
    let mut lease = guard.into_lease();
    lease.release(&mut st);
    assert!(!st.is_initialized());
    let (g2, s2) = RuntimeGuard::new(&mut st, Ok(())).unwrap();
    assert_eq!(s2, RuntimeStart::Initialize);
    let mut l2 = g2.into_lease();
    assert!(l2.release(&mut st));
    assert_eq!(shutdown(&mut st).unwrap(), false);
}

#[test]
fn balanced_acquire_release_returns_to_idle() {
    let mut st = RuntimeState::new();
    let mut leases = Vec::new();
    for _ in 0..5 {
        leases.push(st.acquire(Ok(())).unwrap().0);
    }
    assert_eq!(st.leases(), 5);
    let mut terminations = 0;
    for l in leases.iter_mut() {
        if l.release(&mut st) {
            terminations += 1;
        }
    }
    assert_eq!(terminations, 1);
    assert_eq!(st.leases(), 0);
    assert!(!st.is_initialized());
}

#[test]
fn initialize_and_terminate_alternate() {
    let mut st = RuntimeState::new();
    let mut calls: Vec<&str> = Vec::new();
    let (mut a, s1) = st.acquire(Ok(())).unwrap();
    if s1 == RuntimeStart::Initialize {
        calls.push("init");
    }
    let mut b = a.duplicate(&mut st);
    if a.release(&mut st) {
        calls.push("term");
    }
    if b.release(&mut st) {
        calls.push("term");
    }
    if shutdown(&mut st).unwrap() {
        calls.push("term");
    }
    let (mut c, s2) = st.acquire(Ok(())).unwrap();
    if s2 == RuntimeStart::Initialize {
        calls.push("init");
    }
    if c.release(&mut st) {
        calls.push("term");
    }
    assert_eq!(calls, vec!["init", "term", "init", "term"]);
    assert_eq!(st.leases(), 0);
    assert!(!st.is_initialized());
}

use wordser::ShutdownCoordinator;

#[test]
fn fresh_coordinator_serves_and_cannot_exit() {
    let mut c = ShutdownCoordinator::new();
    assert!(!c.may_exit());
    assert!(c.try_admit());
}

#[test]
fn signal_stops_admission_immediately() {
    let mut c = ShutdownCoordinator::new();
    assert!(c.try_admit());
    c.signal();
    assert!(!c.try_admit());
}

#[test]
fn signal_is_one_shot() {
    let mut c = ShutdownCoordinator::new();
    assert!(c.try_admit());
    c.signal();
    c.signal();
    assert!(!c.try_admit());
    assert!(!c.may_exit());
    c.complete();
    assert!(c.may_exit());
}

#[test]
fn in_flight_requests_drain_before_exit() {
    let mut c = ShutdownCoordinator::new();
    assert!(c.try_admit());
    assert!(c.try_admit());
    assert!(c.try_admit());
    c.signal();
    assert!(!c.try_admit());
    c.complete();
    assert!(!c.may_exit());
    c.complete();
    assert!(!c.may_exit());
    c.complete();
    assert!(c.may_exit());
}

#[test]
fn exit_needs_both_signal_and_empty_flight() {
    let mut c = ShutdownCoordinator::new();
    assert!(!c.may_exit());
    assert!(c.try_admit());
    c.complete();
    assert!(!c.may_exit());
    c.signal();
    assert!(c.may_exit());
}

use vehicle_session::{
    Activity, ActivityGuard, ActivityKind, EmergencyStopGuard, MavlinkState, ParameterRegistry,
    SessionError, ViolatedBound,
};

#[test]
fn registry_holds_the_default_set() {
    let mut reg = ParameterRegistry::new();
    assert_eq!(reg.len(), 0);
    reg.load_default_parameters();
    assert_eq!(reg.len(), 4);
    let thr = reg.get(&"THR_MIN".to_string()).unwrap();
    assert_eq!(thr.value, 130_000);
    assert_eq!(thr.param_type, "INT16");
    assert_eq!(thr.units.as_deref(), Some("PWM"));
    assert!(reg.get(&"NO_SUCH_KEY".to_string()).is_none());
    let listed = reg.list();
    assert_eq!(listed.len(), 4);
    reg.clear();
    assert_eq!(reg.len(), 0);
}

#[test]
fn registry_set_validates_against_bounds() {
    let mut reg = ParameterRegistry::new();
    reg.load_default_parameters();
    assert_eq!(
        reg.set(&"BATT_CAPACITY".to_string(), 60_000_000),
        Err(SessionError::OutOfRange(ViolatedBound::Maximum(50_000_000)))
    );
    assert_eq!(reg.set(&"BATT_CAPACITY".to_string(), -1), Err(
        SessionError::OutOfRange(ViolatedBound::Minimum(0))
    ));
    assert_eq!(reg.set(&"BATT_CAPACITY".to_string(), 10_000_000), Ok(()));
    assert_eq!(reg.get(&"BATT_CAPACITY".to_string()).unwrap().value, 10_000_000);
    assert_eq!(
        reg.set(&"MISSING".to_string(), 0),
        Err(SessionError::ParameterNotFound)
    );
}

#[test]
fn activity_guard_grants_one_slot_at_a_time() {
    let mut g = ActivityGuard::new();
    assert_eq!(g.current, Activity::Idle);
    assert!(g.try_acquire(ActivityKind::MotorTest));
    assert_eq!(g.current, Activity::MotorTest);
    assert!(!g.try_acquire(ActivityKind::Calibration));
    assert!(!g.try_acquire(ActivityKind::MotorTest));
    assert_eq!(g.current, Activity::MotorTest);
}

#[test]
fn releasing_the_wrong_kind_changes_nothing() {
    let mut g = ActivityGuard::new();
    g.try_acquire(ActivityKind::Calibration);
    g.release(ActivityKind::MotorTest);
    assert_eq!(g.current, Activity::Calibration);
    g.release(ActivityKind::Calibration);
    assert_eq!(g.current, Activity::Idle);
    // Releasing an idle guard is a no-op.
    g.release(ActivityKind::MotorTest);
    assert_eq!(g.current, Activity::Idle);
}

#[test]
fn guard_flags_follow_the_slot() {
    let mut g = ActivityGuard::new();
    assert!(!g.motor_test_active());
    assert!(!g.calibration_active());
    g.try_acquire(ActivityKind::MotorTest);
    assert!(g.motor_test_active());
    assert!(!g.calibration_active());
}

#[test]
fn emergency_guard_records_each_activation() {
    let mut e = EmergencyStopGuard::new();
    assert!(!e.active);
    assert_eq!(e.last_activation, None);
    e.engage(42);
    assert!(e.active);
    assert_eq!(e.last_activation, Some(42));
    e.engage(99);
    assert!(e.active);
    assert_eq!(e.last_activation, Some(99));
}

#[test]
fn init_builds_a_fresh_session() {
    let m = vehicle_session::init();
    let status = m.connection_status();
    assert!(!status.connected);
    assert_eq!(status.connection_string, None);
    assert_eq!(status.last_heartbeat, None);
    assert_eq!(status.messages_received, 0);
    assert_eq!(status.messages_sent, 0);
    assert_eq!(status.link_quality, 0);
    assert!(!m.motor_test_active());
    assert!(!m.calibration_active());
    assert!(!m.emergency_state().active);
    let fresh = MavlinkState::new();
    assert!(!fresh.connection_status().connected);
}

use vehicle_session::{MavlinkState, SessionError, ViolatedBound};

#[test]
fn connect_udp_succeeds_with_defaults() {
    let mut m = MavlinkState::new();
    let r = m.connect_drone("udp://127.0.0.1:14550".to_string(), 1000);
    assert_eq!(r, Ok(true));
    let status = m.connection_status();
    assert!(status.connected);
    assert_eq!(status.connection_string.as_deref(), Some("udp://127.0.0.1:14550"));
    assert_eq!(status.last_heartbeat, Some(1000));
    assert_eq!(status.link_quality, 1000);
    let params = m.get_drone_parameters(1000).unwrap();
    let arming = params.iter().find(|p| p.id == "ARMING_CHECK").unwrap();
    assert_eq!(arming.value, 1000); // 1.0 in thousandths
    assert_eq!(arming.min_value, Some(0));
    assert_eq!(arming.max_value, Some(65_535_000));
}

#[test]
fn connect_populates_vehicle_snapshot() {
    let mut m = MavlinkState::new();
    m.connect_drone("udp://127.0.0.1:14550".to_string(), 1000).unwrap();
    let v = m.get_vehicle_info(1000).unwrap();
    assert_eq!(v.system_id, 1);
    assert_eq!(v.component_id, 1);
    assert_eq!(v.autopilot_type, "ArduPilot");
    assert_eq!(v.vehicle_type, "Quadcopter");
    assert_eq!(v.firmware_version, "4.5.0");
    assert_eq!(v.capabilities, vec!["MISSION", "PARAM", "FENCE", "RALLY"]);
    assert!(!v.armed);
    assert_eq!(v.flight_mode, "STABILIZE");
}

#[test]
fn invalid_connection_string_rejected_without_state_change() {
    let mut m = MavlinkState::new();
    let r = m.connect_drone("garbage".to_string(), 1000);
    assert_eq!(r, Err(SessionError::InvalidFormat));
    assert!(!m.connection_status().connected);
    // Too short for a udp endpoint: ten bytes, not more than ten.
    let r = m.connect_drone("udp://a:12".to_string(), 1000);
    assert_eq!(r, Err(SessionError::InvalidFormat));
    // No baud suffix on a serial device path.
    let r = m.connect_drone("/dev/ttyUSB0".to_string(), 1000);
    assert_eq!(r, Err(SessionError::InvalidFormat));
    assert!(!m.connection_status().connected);
    assert_eq!(m.get_vehicle_info(1000).map(|_| ()), Err(SessionError::NotConnected));
}

#[test]
fn second_connect_rejected_state_reflects_first() {
    let mut m = MavlinkState::new();
    m.connect_drone("udp://127.0.0.1:14550".to_string(), 1000).unwrap();
    let r = m.connect_drone("tcp://192.168.1.1:5760".to_string(), 2000);
    assert_eq!(r, Err(SessionError::AlreadyConnected));
    let status = m.connection_status();
    assert_eq!(status.connection_string.as_deref(), Some("udp://127.0.0.1:14550"));
    assert_eq!(status.last_heartbeat, Some(1000));
}

#[test]
fn vehicle_info_before_connect_fails_not_connected() {
    let m = MavlinkState::new();
    assert_eq!(m.get_vehicle_info(0).map(|_| ()), Err(SessionError::NotConnected));
}

#[test]
fn heartbeat_timeout_after_five_seconds() {
    let mut m = MavlinkState::new();
    m.connect_drone("udp://127.0.0.1:14550".to_string(), 1000).unwrap();
    // Exactly 5000 ms since the heartbeat is still live.
    assert!(m.get_drone_parameters(6000).is_ok());
    // One millisecond more is a timeout.
    assert_eq!(
        m.get_drone_parameters(6001).map(|_| ()),
        Err(SessionError::HeartbeatTimeout)
    );
    assert_eq!(m.get_vehicle_info(7000).map(|_| ()), Err(SessionError::HeartbeatTimeout));
    assert_eq!(
        m.set_drone_parameter("THR_MIN".to_string(), 200_000, 6001),
        Err(SessionError::HeartbeatTimeout)
    );
}

#[test]
fn set_parameter_above_maximum_reports_bound() {
    let mut m = MavlinkState::new();
    m.connect_drone("udp://127.0.0.1:14550".to_string(), 1000).unwrap();
    // 2000.0 exceeds THR_MIN's maximum of 1000.0.
    let r = m.set_drone_parameter("THR_MIN".to_string(), 2_000_000, 1000);
    assert_eq!(
        r,
        Err(SessionError::OutOfRange(ViolatedBound::Maximum(1_000_000)))
    );
    // The stored value is unchanged.
    let params = m.get_drone_parameters(1000).unwrap();
    let thr = params.iter().find(|p| p.id == "THR_MIN").unwrap();
    assert_eq!(thr.value, 130_000);
    // 200.0 is accepted and the list reflects it.
    assert_eq!(m.set_drone_parameter("THR_MIN".to_string(), 200_000, 1000), Ok(()));
    let params = m.get_drone_parameters(1000).unwrap();
    let thr = params.iter().find(|p| p.id == "THR_MIN").unwrap();
    assert_eq!(thr.value, 200_000);
}

#[test]
fn set_parameter_below_minimum_reports_bound() {
    let mut m = MavlinkState::new();
    m.connect_drone("udp://127.0.0.1:14550".to_string(), 1000).unwrap();
    // 500.0 is below ANGLE_MAX's minimum of 1000.0.
    let r = m.set_drone_parameter("ANGLE_MAX".to_string(), 500_000, 1000);
    assert_eq!(
        r,
        Err(SessionError::OutOfRange(ViolatedBound::Minimum(1_000_000)))
    );
    let params = m.get_drone_parameters(1000).unwrap();
    let angle = params.iter().find(|p| p.id == "ANGLE_MAX").unwrap();
    assert_eq!(angle.value, 4_500_000);
}

#[test]
fn set_parameter_accepts_values_on_the_bounds() {
    let mut m = MavlinkState::new();
    m.connect_drone("udp://127.0.0.1:14550".to_string(), 1000).unwrap();
    assert_eq!(m.set_drone_parameter("THR_MIN".to_string(), 0, 1000), Ok(()));
    assert_eq!(
        m.set_drone_parameter("THR_MIN".to_string(), 1_000_000, 1000),
        Ok(())
    );
    let params = m.get_drone_parameters(1000).unwrap();
    let thr = params.iter().find(|p| p.id == "THR_MIN").unwrap();
    assert_eq!(thr.value, 1_000_000);
}

#[test]
fn set_unknown_parameter_fails() {
    let mut m = MavlinkState::new();
    m.connect_drone("udp://127.0.0.1:14550".to_string(), 1000).unwrap();
    assert_eq!(
        m.set_drone_parameter("NO_SUCH_KEY".to_string(), 1, 1000),
        Err(SessionError::ParameterNotFound)
    );
}

#[test]
fn motor_test_slot_contention() {
    let mut m = MavlinkState::new();
    m.connect_drone("udp://127.0.0.1:14550".to_string(), 1000).unwrap();
    assert_eq!(m.test_motor(3, 50, 1000, 1000), Ok(()));
    assert!(m.motor_test_active());
    // A second request while the slot is held is rejected.
    assert_eq!(
        m.test_motor(4, 50, 1000, 1000),
        Err(SessionError::OperationInProgress)
    );
    m.complete_motor_test();
    assert!(!m.motor_test_active());
    // The slot is free again.
    assert_eq!(m.test_motor(4, 50, 1000, 1000), Ok(()));
    m.complete_motor_test();
}

#[test]
fn motor_test_validates_ranges_before_anything_else() {
    let mut m = MavlinkState::new();
    // Ranges are checked before liveness: invalid ranges are reported even
    // when no session is active.
    assert_eq!(m.test_motor(0, 50, 1000, 0), Err(SessionError::InvalidParameter));
    assert_eq!(m.test_motor(9, 50, 1000, 0), Err(SessionError::InvalidParameter));
    assert_eq!(m.test_motor(3, 101, 1000, 0), Err(SessionError::InvalidParameter));
    assert_eq!(m.test_motor(3, 50, 5001, 0), Err(SessionError::InvalidParameter));
    // Valid ranges without a session fail the liveness check.
    assert_eq!(m.test_motor(3, 50, 1000, 0), Err(SessionError::NotConnected));
    m.connect_drone("udp://127.0.0.1:14550".to_string(), 1000).unwrap();
    assert_eq!(m.test_motor(1, 0, 0, 1000), Ok(()));
    m.complete_motor_test();
    assert_eq!(m.test_motor(8, 100, 5000, 1000), Ok(()));
    m.complete_motor_test();
}

#[test]
fn disconnect_blocked_while_motor_test_active() {
    let mut m = MavlinkState::new();
    m.connect_drone("udp://127.0.0.1:14550".to_string(), 1000).unwrap();
    m.test_motor(3, 50, 1000, 1000).unwrap();
    assert_eq!(m.disconnect_drone(), Err(SessionError::OperationInProgress));
    assert!(m.connection_status().connected);
    m.complete_motor_test();
    assert_eq!(m.disconnect_drone(), Ok(()));
    assert!(!m.connection_status().connected);
    assert_eq!(m.get_drone_parameters(1000).map(|_| ()), Err(SessionError::NotConnected));
}

#[test]
fn disconnect_blocked_while_calibration_active() {
    let mut m = MavlinkState::new();
    m.connect_drone("udp://127.0.0.1:14550".to_string(), 1000).unwrap();
    m.calibrate_accelerometer(1000).unwrap();
    assert!(m.calibration_active());
    assert_eq!(m.disconnect_drone(), Err(SessionError::OperationInProgress));
    m.complete_calibration();
    assert!(!m.calibration_active());
    assert_eq!(m.disconnect_drone(), Ok(()));
}

#[test]
fn emergency_stop_voids_motor_test() {
    let mut m = MavlinkState::new();
    m.connect_drone("udp://127.0.0.1:14550".to_string(), 1000).unwrap();
    m.test_motor(3, 50, 1000, 1000).unwrap();
    assert!(m.motor_test_active());
    assert_eq!(m.emergency_stop(1500), Ok(()));
    assert!(!m.motor_test_active());
    let e = m.emergency_state();
    assert!(e.active);
    assert_eq!(e.last_activation, Some(1500));
}

#[test]
fn emergency_stop_spares_calibration_and_always_succeeds() {
    let mut m = MavlinkState::new();
    // From a fresh, disconnected state.
    assert_eq!(m.emergency_stop(10), Ok(()));
    assert!(m.emergency_state().active);
    // During a calibration: the sampling is not actuation and survives.
    m.connect_drone("udp://127.0.0.1:14550".to_string(), 1000).unwrap();
    m.calibrate_gyroscope(1000).unwrap();
    assert_eq!(m.emergency_stop(1200), Ok(()));
    assert!(m.calibration_active());
    assert_eq!(m.emergency_state().last_activation, Some(1200));
    m.complete_calibration();
    // The flag survives a disconnect; only an explicit re-arm clears it.
    m.disconnect_drone().unwrap();
    assert!(m.emergency_state().active);
}

#[test]
fn calibrations_are_mutually_exclusive_with_motor_tests() {
    let mut m = MavlinkState::new();
    m.connect_drone("udp://127.0.0.1:14550".to_string(), 1000).unwrap();
    m.test_motor(3, 50, 1000, 1000).unwrap();
    assert_eq!(
        m.calibrate_accelerometer(1000).map(|_| ()),
        Err(SessionError::OperationInProgress)
    );
    m.complete_motor_test();
    m.calibrate_accelerometer(1000).unwrap();
    assert_eq!(
        m.calibrate_gyroscope(1000).map(|_| ()),
        Err(SessionError::OperationInProgress)
    );
    assert_eq!(m.test_motor(3, 50, 1000, 1000), Err(SessionError::OperationInProgress));
    // Never both flags at once.
    assert!(!(m.motor_test_active() && m.calibration_active()));
    m.complete_calibration();
}

#[test]
fn accelerometer_calibration_reports_fixed_run() {
    let mut m = MavlinkState::new();
    m.connect_drone("udp://127.0.0.1:14550".to_string(), 1000).unwrap();
    let r = m.calibrate_accelerometer(1000).unwrap();
    assert!(r.success);
    assert_eq!(r.sensor_type, "Accelerometer");
    assert_eq!(r.offsets, vec![12, -8, 3]); // 0.012, -0.008, 0.003
    assert_eq!(r.scales, vec![1001, 998, 1002]); // 1.001, 0.998, 1.002
    assert_eq!(r.fitness, 980); // 0.98
    assert_eq!(r.message, "Accelerometer calibration successful");
    m.complete_calibration();
}

#[test]
fn gyroscope_calibration_reports_fixed_run() {
    let mut m = MavlinkState::new();
    m.connect_drone("udp://127.0.0.1:14550".to_string(), 1000).unwrap();
    let r = m.calibrate_gyroscope(1000).unwrap();
    assert!(r.success);
    assert_eq!(r.sensor_type, "Gyroscope");
    assert_eq!(r.offsets, vec![-2, 1, -3]);
    assert_eq!(r.scales, vec![1000, 1000, 1000]);
    assert_eq!(r.fitness, 990);
    assert_eq!(r.message, "Gyroscope calibration successful");
    m.complete_calibration();
}

#[test]
fn calibration_requires_liveness() {
    let mut m = MavlinkState::new();
    assert_eq!(
        m.calibrate_accelerometer(0).map(|_| ()),
        Err(SessionError::NotConnected)
    );
    m.connect_drone("udp://127.0.0.1:14550".to_string(), 1000).unwrap();
    assert_eq!(
        m.calibrate_gyroscope(7000).map(|_| ()),
        Err(SessionError::HeartbeatTimeout)
    );
}

#[test]
fn reconnect_after_disconnect_restores_defaults() {
    let mut m = MavlinkState::new();
    m.connect_drone("udp://127.0.0.1:14550".to_string(), 1000).unwrap();
    m.set_drone_parameter("THR_MIN".to_string(), 200_000, 1000).unwrap();
    m.disconnect_drone().unwrap();
    m.connect_drone("tcp://10.0.0.1:5760".to_string(), 2000).unwrap();
    let params = m.get_drone_parameters(2000).unwrap();
    assert_eq!(params.len(), 4);
    let thr = params.iter().find(|p| p.id == "THR_MIN").unwrap();
    assert_eq!(thr.value, 130_000);
}

#[test]
fn error_messages_name_the_failure() {
    assert_eq!(SessionError::InvalidFormat.message(), "Invalid connection string format");
    assert_eq!(SessionError::AlreadyConnected.message(), "Already connected to a drone");
    assert_eq!(SessionError::NotConnected.message(), "Not connected to drone");
    assert_eq!(
        SessionError::HeartbeatTimeout.message(),
        "Connection lost (heartbeat timeout)"
    );
    assert_eq!(
        SessionError::VehicleInfoUnavailable.message(),
        "Vehicle info not available"
    );
    assert_eq!(
        SessionError::StorageAccessFailure.message(),
        "State storage access failed"
    );
}

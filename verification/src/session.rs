//! The vehicle session: one aggregate of connection status, vehicle
//! snapshot, parameter registry, activity slot and emergency flag, with
//! every operation specified as a deterministic transition on its
//! mathematical model.
//!
//! The operations that hold the activity slot for an externally visible
//! duration — a motor test and a calibration — are split in two: the entry
//! point validates, checks liveness and takes the slot, and a completion
//! call gives the slot back once the caller's wait (or an emergency stop)
//! has ended it. Everything in between is the caller's wait; no state
//! changes during it.

use vstd::prelude::*;
use crate::activity::{
    activity_of, calibration_active, motor_test_active, Activity, ActivityGuard, ActivityKind,
};
use crate::calibration::{
    accelerometer_calibration_result, accelerometer_result, gyroscope_calibration_result,
    gyroscope_result, CalibrationResult,
};
use crate::connection::{
    initial_status, spec_verify_connection, status_wf, valid_connection_string,
    validate_connection_string, ConnectionStatus, StatusModel,
};
use crate::errors::SessionError;
use crate::params::{
    default_params, lemma_default_params_wf, lemma_set_param_preserves_wf, params_wf,
    spec_set_param, views_of, ParamModel, Parameter, ParameterRegistry,
};
use crate::safety::EmergencyStopGuard;
use crate::vehicle::{default_vehicle, fresh_vehicle_info, VehicleInfo, VehicleModel};

verus! {

/// The mathematical value of a whole session.
#[verifier::ext_equal]
pub struct SessionModel {
    pub status: StatusModel,
    pub vehicle: Option<VehicleModel>,
    pub params: Seq<ParamModel>,
    pub emergency: EmergencyStopGuard,
    pub activity: Activity,
}

/// The internal consistency of a session: the status record and the
/// registry are well formed, a vehicle snapshot is present exactly while
/// connected, the registry is empty while disconnected, and an exclusive
/// activity can only be under way while connected.
pub open spec fn session_wf(m: SessionModel) -> bool {
    &&& status_wf(m.status)
    &&& params_wf(m.params)
    &&& (m.vehicle is Some <==> m.status.connected)
    &&& (!m.status.connected ==> m.params.len() == 0)
    &&& (m.activity != Activity::Idle ==> m.status.connected)
}

/// The session every state aggregate starts from: disconnected, no
/// vehicle, no parameters, no emergency, idle.
pub open spec fn initial_session() -> SessionModel {
    SessionModel {
        status: initial_status(),
        vehicle: None,
        params: Seq::empty(),
        emergency: EmergencyStopGuard { active: false, last_activation: None },
        activity: Activity::Idle,
    }
}

/// What connecting with `conn` at time `now` does. It is rejected, with
/// the session unchanged, when the string matches no recognized transport
/// shape or a session is already active; otherwise the session becomes
/// connected with a fresh heartbeat and full link quality, the default
/// vehicle snapshot and the default parameter set. The emergency flag and
/// the activity slot are never touched.
pub open spec fn spec_connect(m: SessionModel, conn: Seq<char>, now: u64) -> (SessionModel, Result<
    bool,
    SessionError,
>) {
    if !valid_connection_string(conn) {
        (m, Err(SessionError::InvalidFormat))
    } else if m.status.connected {
        (m, Err(SessionError::AlreadyConnected))
    } else {
        (
            SessionModel {
                status: StatusModel {
                    connected: true,
                    connection_string: Some(conn),
                    last_heartbeat: Some(now),
                    link_quality: 1000,
                    ..m.status
                },
                vehicle: Some(default_vehicle()),
                params: default_params(),
                ..m
            },
            Ok(true),
        )
    }
}

/// What disconnecting does. It is rejected, with the session unchanged,
/// while a motor test or a calibration is under way; otherwise the status
/// record, the vehicle snapshot and the parameter registry are cleared in
/// one step. The emergency flag is never touched.
pub open spec fn spec_disconnect(m: SessionModel) -> (SessionModel, Result<(), SessionError>) {
    if m.activity != Activity::Idle {
        (m, Err(SessionError::OperationInProgress))
    } else {
        (
            SessionModel { status: initial_status(), vehicle: None, params: Seq::empty(), ..m },
            Ok(()),
        )
    }
}

/// What reading the vehicle snapshot at time `now` returns: the liveness
/// rule is checked first, then the snapshot is handed out if present.
pub open spec fn spec_get_vehicle_info(m: SessionModel, now: u64) -> Result<
    VehicleModel,
    SessionError,
> {
    match spec_verify_connection(m.status, now) {
        Err(e) => Err(e),
        Ok(_) => match m.vehicle {
            None => Err(SessionError::VehicleInfoUnavailable),
            Some(v) => Ok(v),
        },
    }
}

/// What listing the parameters at time `now` returns: the liveness rule
/// is checked first, then a snapshot of every parameter in registry order.
pub open spec fn spec_get_parameters(m: SessionModel, now: u64) -> Result<
    Seq<ParamModel>,
    SessionError,
> {
    match spec_verify_connection(m.status, now) {
        Err(e) => Err(e),
        Ok(_) => Ok(m.params),
    }
}

/// What writing `value` to the parameter keyed `id` at time `now` does:
/// the liveness rule is checked first, then the write is validated against
/// the entry's bounds and committed in the same step.
pub open spec fn spec_set_parameter(m: SessionModel, id: Seq<char>, value: i64, now: u64) -> (
    SessionModel,
    Result<(), SessionError>,
) {
    match spec_verify_connection(m.status, now) {
        Err(e) => (m, Err(e)),
        Ok(_) => {
            let (ps, r) = spec_set_param(m.params, id, value);
            (SessionModel { params: ps, ..m }, r)
        },
    }
}

/// The allowed motor-test request ranges: motor 1 to 8, throttle 0 to
/// 100 percent, duration 0 to 5000 milliseconds.
pub open spec fn valid_motor_test_request(motor_id: u8, throttle: u16, duration_ms: u32) -> bool {
    &&& 1 <= motor_id <= 8
    &&& throttle <= 100
    &&& duration_ms <= 5000
}

/// What starting a motor test does. The request ranges are validated
/// before any shared state is read; then the liveness rule is checked;
/// then the activity slot is taken if, and only if, it is free. On success
/// the session is in the motor-test state and nothing else has changed.
pub open spec fn spec_test_motor(
    m: SessionModel,
    motor_id: u8,
    throttle: u16,
    duration_ms: u32,
    now: u64,
) -> (SessionModel, Result<(), SessionError>) {
    if !valid_motor_test_request(motor_id, throttle, duration_ms) {
        (m, Err(SessionError::InvalidParameter))
    } else {
        match spec_verify_connection(m.status, now) {
            Err(e) => (m, Err(e)),
            Ok(_) => {
                if m.activity != Activity::Idle {
                    (m, Err(SessionError::OperationInProgress))
                } else {
                    (SessionModel { activity: Activity::MotorTest, ..m }, Ok(()))
                }
            },
        }
    }
}

/// What ending a motor test does: the motor-test slot is released
/// unconditionally; any other activity state is left alone.
pub open spec fn spec_complete_motor_test(m: SessionModel) -> SessionModel {
    SessionModel {
        activity: if m.activity == Activity::MotorTest {
            Activity::Idle
        } else {
            m.activity
        },
        ..m
    }
}

/// What an emergency stop does: the emergency flag is raised and the
/// activation time recorded, and an in-progress motor test is voided. A
/// calibration's sampling, which involves no actuation, is not ended.
/// Nothing else is touched, and the operation never fails.
pub open spec fn spec_emergency_stop(m: SessionModel, now: u64) -> SessionModel {
    SessionModel {
        emergency: EmergencyStopGuard { active: true, last_activation: Some(now) },
        activity: if m.activity == Activity::MotorTest {
            Activity::Idle
        } else {
            m.activity
        },
        ..m
    }
}

/// What starting a calibration does: the liveness rule is checked, then
/// the activity slot is taken if, and only if, it is free. On success the
/// session is in the calibration state and nothing else has changed.
pub open spec fn spec_calibrate(m: SessionModel, now: u64) -> (SessionModel, Result<
    (),
    SessionError,
>) {
    match spec_verify_connection(m.status, now) {
        Err(e) => (m, Err(e)),
        Ok(_) => {
            if m.activity != Activity::Idle {
                (m, Err(SessionError::OperationInProgress))
            } else {
                (SessionModel { activity: Activity::Calibration, ..m }, Ok(()))
            }
        },
    }
}

/// What ending a calibration does: the calibration slot is released
/// unconditionally; any other activity state is left alone.
pub open spec fn spec_complete_calibration(m: SessionModel) -> SessionModel {
    SessionModel {
        activity: if m.activity == Activity::Calibration {
            Activity::Idle
        } else {
            m.activity
        },
        ..m
    }
}

/// The shared session-state aggregate every operation works on.
pub struct MavlinkState {
    pub connection_status: ConnectionStatus,
    pub vehicle_info: Option<VehicleInfo>,
    pub parameters: ParameterRegistry,
    pub emergency_stop: EmergencyStopGuard,
    pub activity: ActivityGuard,
}

impl View for MavlinkState {
    type V = SessionModel;

    open spec fn view(&self) -> SessionModel {
        SessionModel {
            status: self.connection_status@,
            vehicle: match self.vehicle_info {
                Some(v) => Some(v@),
                None => None,
            },
            params: self.parameters@,
            emergency: self.emergency_stop,
            activity: self.activity.current,
        }
    }
}

impl MavlinkState {
    /// The internal consistency every operation preserves.
    pub open spec fn wf(&self) -> bool {
        session_wf(self@)
    }

    /// A fresh, disconnected session.
    pub fn new() -> (r: Self)
        ensures
            r@ == initial_session(),
            r.wf(),
    {
        let r = MavlinkState {
            connection_status: ConnectionStatus::new(),
            vehicle_info: None,
            parameters: ParameterRegistry::new(),
            emergency_stop: EmergencyStopGuard::new(),
            activity: ActivityGuard::new(),
        };
        proof {
            assert(r@ =~= initial_session());
        }
        r
    }

    /// Checks the liveness rule — connected, heartbeat fresh — at `now`.
    pub fn verify_connection(&self, now: u64) -> (r: Result<(), SessionError>)
        ensures
            r == spec_verify_connection(self@.status, now),
    {
        self.connection_status.check_live(now)
    }

    /// Establishes a session over `connection_string` at time `now`; see
    /// [`spec_connect`] for exactly what is rejected and what is set up.
    pub fn connect_drone(&mut self, connection_string: String, now: u64) -> (r: Result<
        bool,
        SessionError,
    >)
        requires
            old(self).wf(),
        ensures
            final(self).wf(),
            (final(self)@, r) == spec_connect(old(self)@, connection_string@, now),
    {
        if !validate_connection_string(connection_string.as_str()) {
            return Err(SessionError::InvalidFormat);
        }
        if self.connection_status.connected {
            return Err(SessionError::AlreadyConnected);
        }
        self.connection_status.connected = true;
        self.connection_status.connection_string = Some(connection_string);
        self.connection_status.last_heartbeat = Some(now);
        self.connection_status.link_quality = 1000;
        self.vehicle_info = Some(fresh_vehicle_info());
        self.parameters.load_default_parameters();
        proof {
            lemma_default_params_wf();
            assert(self@ =~= spec_connect(old(self)@, connection_string@, now).0);
        }
        Ok(true)
    }

    /// Tears the session down at once — status, vehicle snapshot and
    /// parameters — unless an exclusive activity is under way; see
    /// [`spec_disconnect`]. The emergency flag survives a disconnect.
    pub fn disconnect_drone(&mut self) -> (r: Result<(), SessionError>)
        requires
            old(self).wf(),
        ensures
            final(self).wf(),
            (final(self)@, r) == spec_disconnect(old(self)@),
    {
        if self.activity.motor_test_active() {
            return Err(SessionError::OperationInProgress);
        }
        if self.activity.calibration_active() {
            return Err(SessionError::OperationInProgress);
        }
        self.connection_status = ConnectionStatus::new();
        self.vehicle_info = None;
        self.parameters.clear();
        proof {
            assert(self@ =~= spec_disconnect(old(self)@).0);
        }
        Ok(())
    }

    /// A copy of the current vehicle snapshot; see
    /// [`spec_get_vehicle_info`].
    pub fn get_vehicle_info(&self, now: u64) -> (r: Result<VehicleInfo, SessionError>)
        ensures
            ({
                let s = spec_get_vehicle_info(self@, now);
                match r {
                    Ok(v) => s is Ok && v@ == s->Ok_0,
                    Err(e) => s == Err::<VehicleModel, SessionError>(e),
                }
            }),
    {
        if let Err(e) = self.connection_status.check_live(now) {
            return Err(e);
        }
        match &self.vehicle_info {
            None => Err(SessionError::VehicleInfoUnavailable),
            Some(v) => Ok(v.clone()),
        }
    }

    /// A snapshot copy of every parameter, in registry order; see
    /// [`spec_get_parameters`].
    pub fn get_drone_parameters(&self, now: u64) -> (r: Result<Vec<Parameter>, SessionError>)
        ensures
            ({
                let s = spec_get_parameters(self@, now);
                match r {
                    Ok(v) => s is Ok && views_of(v@) == s->Ok_0,
                    Err(e) => s == Err::<Seq<ParamModel>, SessionError>(e),
                }
            }),
    {
        if let Err(e) = self.connection_status.check_live(now) {
            return Err(e);
        }
        Ok(self.parameters.list())
    }

    /// Writes `value` (in thousandths) to the parameter keyed `param_id`,
    /// validating it against the entry's bounds; see
    /// [`spec_set_parameter`]. Check and commit are one step.
    pub fn set_drone_parameter(&mut self, param_id: String, value: i64, now: u64) -> (r: Result<
        (),
        SessionError,
    >)
        requires
            old(self).wf(),
        ensures
            final(self).wf(),
            (final(self)@, r) == spec_set_parameter(old(self)@, param_id@, value, now),
    {
        if let Err(e) = self.connection_status.check_live(now) {
            return Err(e);
        }
        let r = self.parameters.set(&param_id, value);
        proof {
            lemma_set_param_preserves_wf(old(self)@.params, param_id@, value);
            assert(self@ =~= spec_set_parameter(old(self)@, param_id@, value, now).0);
        }
        r
    }

    /// Starts a bounded actuator test: motor 1 to 8, throttle at most 100
    /// percent, duration at most 5000 milliseconds; see
    /// [`spec_test_motor`]. On success the session holds the motor-test
    /// slot until [`MavlinkState::complete_motor_test`] — or an emergency
    /// stop — releases it; the caller performs the timed wait in between.
    pub fn test_motor(&mut self, motor_id: u8, throttle: u16, duration_ms: u32, now: u64) -> (r:
        Result<(), SessionError>)
        requires
            old(self).wf(),
        ensures
            final(self).wf(),
            (final(self)@, r) == spec_test_motor(old(self)@, motor_id, throttle, duration_ms, now),
    {
        if motor_id < 1 || motor_id > 8 {
            return Err(SessionError::InvalidParameter);
        }
        if throttle > 100 {
            return Err(SessionError::InvalidParameter);
        }
        if duration_ms > 5000 {
            return Err(SessionError::InvalidParameter);
        }
        if let Err(e) = self.connection_status.check_live(now) {
            return Err(e);
        }
        if !self.activity.try_acquire(ActivityKind::MotorTest) {
            return Err(SessionError::OperationInProgress);
        }
        proof {
            assert(self@ =~= spec_test_motor(
                old(self)@,
                motor_id,
                throttle,
                duration_ms,
                now,
            ).0);
        }
        Ok(())
    }

    /// Ends a motor test, releasing its slot unconditionally; see
    /// [`spec_complete_motor_test`].
    pub fn complete_motor_test(&mut self)
        requires
            old(self).wf(),
        ensures
            final(self).wf(),
            final(self)@ == spec_complete_motor_test(old(self)@),
    {
        self.activity.release(ActivityKind::MotorTest);
        proof {
            assert(activity_of(ActivityKind::MotorTest) == Activity::MotorTest);
            assert(self@ =~= spec_complete_motor_test(old(self)@));
        }
    }

    /// Raises the emergency flag, records the activation time, and voids
    /// an in-progress motor test; see [`spec_emergency_stop`]. This call
    /// touches nothing else, cannot be rejected, and succeeds from any
    /// state.
    pub fn emergency_stop(&mut self, now: u64) -> (r: Result<(), SessionError>)
        requires
            old(self).wf(),
        ensures
            final(self).wf(),
            final(self)@ == spec_emergency_stop(old(self)@, now),
            r == Ok::<(), SessionError>(()),
    {
        self.emergency_stop.engage(now);
        self.activity.release(ActivityKind::MotorTest);
        proof {
            assert(self@ =~= spec_emergency_stop(old(self)@, now));
        }
        Ok(())
    }

    /// Starts an accelerometer calibration and reports what the completed
    /// run yields; see [`spec_calibrate`]. On success the session holds
    /// the calibration slot until
    /// [`MavlinkState::complete_calibration`] releases it; the caller
    /// performs the sampling wait in between.
    pub fn calibrate_accelerometer(&mut self, now: u64) -> (r: Result<
        CalibrationResult,
        SessionError,
    >)
        requires
            old(self).wf(),
        ensures
            final(self).wf(),
            final(self)@ == spec_calibrate(old(self)@, now).0,
            r is Ok <==> spec_calibrate(old(self)@, now).1 is Ok,
            r is Ok ==> r->Ok_0@ == accelerometer_result(),
            r is Err ==> r->Err_0 == spec_calibrate(old(self)@, now).1->Err_0,
    {
        if let Err(e) = self.connection_status.check_live(now) {
            return Err(e);
        }
        if !self.activity.try_acquire(ActivityKind::Calibration) {
            return Err(SessionError::OperationInProgress);
        }
        proof {
            assert(self@ =~= spec_calibrate(old(self)@, now).0);
        }
        Ok(accelerometer_calibration_result())
    }

    /// Starts a gyroscope calibration and reports what the completed run
    /// yields; see [`spec_calibrate`]. The slot protocol is the same as
    /// for the accelerometer.
    pub fn calibrate_gyroscope(&mut self, now: u64) -> (r: Result<CalibrationResult, SessionError>)
        requires
            old(self).wf(),
        ensures
            final(self).wf(),
            final(self)@ == spec_calibrate(old(self)@, now).0,
            r is Ok <==> spec_calibrate(old(self)@, now).1 is Ok,
            r is Ok ==> r->Ok_0@ == gyroscope_result(),
            r is Err ==> r->Err_0 == spec_calibrate(old(self)@, now).1->Err_0,
    {
        if let Err(e) = self.connection_status.check_live(now) {
            return Err(e);
        }
        if !self.activity.try_acquire(ActivityKind::Calibration) {
            return Err(SessionError::OperationInProgress);
        }
        proof {
            assert(self@ =~= spec_calibrate(old(self)@, now).0);
        }
        Ok(gyroscope_calibration_result())
    }

    /// Ends a calibration, releasing its slot unconditionally; see
    /// [`spec_complete_calibration`].
    pub fn complete_calibration(&mut self)
        requires
            old(self).wf(),
        ensures
            final(self).wf(),
            final(self)@ == spec_complete_calibration(old(self)@),
    {
        self.activity.release(ActivityKind::Calibration);
        proof {
            assert(self@ =~= spec_complete_calibration(old(self)@));
        }
    }

    /// A copy of the connection status record.
    pub fn connection_status(&self) -> (r: ConnectionStatus)
        ensures
            r@ == self@.status,
    {
        self.connection_status.clone()
    }

    /// Whether a motor test holds the activity slot.
    pub fn motor_test_active(&self) -> (r: bool)
        ensures
            r == motor_test_active(self@.activity),
    {
        self.activity.motor_test_active()
    }

    /// Whether a calibration holds the activity slot.
    pub fn calibration_active(&self) -> (r: bool)
        ensures
            r == calibration_active(self@.activity),
    {
        self.activity.calibration_active()
    }

    /// The emergency-stop state.
    pub fn emergency_state(&self) -> (r: EmergencyStopGuard)
        ensures
            r == self@.emergency,
    {
        self.emergency_stop
    }
}

/// A fresh, disconnected session; the aggregate the surrounding
/// application registers at startup.
pub fn init() -> (r: MavlinkState)
    ensures
        r@ == initial_session(),
        r.wf(),
{
    MavlinkState::new()
}

} // verus!


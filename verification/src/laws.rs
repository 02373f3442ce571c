//! The session-wide laws, each proved over the transition functions of
//! [`crate::session`].

use vstd::prelude::*;
use crate::activity::{calibration_active, motor_test_active, Activity};
use crate::connection::{spec_verify_connection, valid_connection_string};
use crate::errors::{SessionError, ViolatedBound};
use crate::params::{find_param, lemma_find_param, ParamModel};
use crate::session::{
    session_wf, spec_connect, spec_disconnect, spec_emergency_stop, spec_set_parameter,
    SessionModel,
};

verus! {

/// A connection string that matches no recognized transport shape is
/// rejected as an invalid format, and connecting with it changes nothing.
pub proof fn lemma_connect_rejects_invalid_format(m: SessionModel, conn: Seq<char>, now: u64)
    requires
        !valid_connection_string(conn),
    ensures
        spec_connect(m, conn, now).0 == m,
        spec_connect(m, conn, now).1 == Err::<bool, SessionError>(SessionError::InvalidFormat),
{
}

/// Connecting twice without an intervening disconnect fails the second
/// call with `AlreadyConnected`, and the session still reflects only the
/// first connection — whatever string and time the second call used.
pub proof fn lemma_second_connect_rejected(
    m: SessionModel,
    conn1: Seq<char>,
    now1: u64,
    conn2: Seq<char>,
    now2: u64,
)
    requires
        spec_connect(m, conn1, now1).1 is Ok,
    ensures
        ({
            let m1 = spec_connect(m, conn1, now1).0;
            &&& spec_connect(m1, conn2, now2).0 == m1
            &&& valid_connection_string(conn2) ==> spec_connect(m1, conn2, now2).1 == Err::<
                bool,
                SessionError,
            >(SessionError::AlreadyConnected)
        }),
{
}

/// While a motor test or a calibration is under way, disconnecting is
/// rejected with `OperationInProgress` and the session is unchanged.
pub proof fn lemma_disconnect_rejected_while_active(m: SessionModel)
    requires
        motor_test_active(m.activity) || calibration_active(m.activity),
    ensures
        spec_disconnect(m).0 == m,
        spec_disconnect(m).1 == Err::<(), SessionError>(SessionError::OperationInProgress),
{
}

/// For a live session and a parameter that exists with both bounds, a
/// write succeeds exactly when the value lies within the bounds; a
/// rejected write names the violated bound and leaves the whole session —
/// the stored value included — unchanged.
pub proof fn lemma_set_parameter_bounds(m: SessionModel, id: Seq<char>, value: i64, now: u64)
    requires
        session_wf(m),
        spec_verify_connection(m.status, now) is Ok,
        find_param(m.params, id) != -1,
        m.params[find_param(m.params, id)].min_value is Some,
        m.params[find_param(m.params, id)].max_value is Some,
    ensures
        ({
            let f = find_param(m.params, id);
            let min = m.params[f].min_value->0;
            let max = m.params[f].max_value->0;
            let (m2, r) = spec_set_parameter(m, id, value, now);
            &&& (r is Ok <==> min <= value <= max)
            &&& (min <= value <= max ==> m2 == SessionModel {
                params: m.params.update(f, ParamModel { value, ..m.params[f] }),
                ..m
            })
            &&& (value < min ==> r == Err::<(), SessionError>(
                SessionError::OutOfRange(ViolatedBound::Minimum(min)),
            ) && m2 == m)
            &&& (value > max ==> r == Err::<(), SessionError>(
                SessionError::OutOfRange(ViolatedBound::Maximum(max)),
            ) && m2 == m)
        }),
{
    lemma_find_param(m.params, id);
    let f = find_param(m.params, id);
    if m.params[f].min_value->0 <= value <= m.params[f].max_value->0 {
        assert(spec_set_parameter(m, id, value, now).0 =~= SessionModel {
            params: m.params.update(f, ParamModel { value, ..m.params[f] }),
            ..m
        });
    } else {
        assert(spec_set_parameter(m, id, value, now).0 =~= m);
    }
}

/// At most one of the motor-test and calibration flags is true at any
/// observed instant: the activity slot is one state, and no state is both.
pub proof fn lemma_activities_exclusive(m: SessionModel)
    ensures
        !(motor_test_active(m.activity) && calibration_active(m.activity)),
{
}

/// An emergency stop always leaves the flag raised with its activation
/// time recorded, voids any in-progress motor test, and touches nothing
/// else: connection, vehicle, parameters and a calibration in progress
/// survive it.
pub proof fn lemma_emergency_stop_voids_motor_test(m: SessionModel, now: u64)
    ensures
        ({
            let m2 = spec_emergency_stop(m, now);
            &&& m2.emergency.active
            &&& m2.emergency.last_activation == Some(now)
            &&& !motor_test_active(m2.activity)
            &&& calibration_active(m2.activity) == calibration_active(m.activity)
            &&& m2.status == m.status
            &&& m2.vehicle == m.vehicle
            &&& m2.params == m.params
        }),
{
}

} // verus!

//! Typed failures surfaced by every session operation.

use vstd::prelude::*;

verus! {

/// The parameter bound that an out-of-range write violated, in thousandths.
#[derive(Debug, Clone, Copy, PartialEq, Eq, Structural)]
pub enum ViolatedBound {
    /// The write was below this minimum.
    Minimum(i64),
    /// The write was above this maximum.
    Maximum(i64),
}

/// Every way a session operation can be rejected. Each rejected operation
/// leaves the shared state exactly as it was before the call.
#[derive(Debug, Clone, Copy, PartialEq, Eq, Structural)]
pub enum SessionError {
    /// The connection string matches no recognized transport shape.
    InvalidFormat,
    /// A session is already active.
    AlreadyConnected,
    /// No session is active.
    NotConnected,
    /// More than five seconds have passed since the last heartbeat.
    HeartbeatTimeout,
    /// An exclusive activity (motor test or calibration) holds the slot.
    OperationInProgress,
    /// No parameter with the requested id exists.
    ParameterNotFound,
    /// The written value violates a parameter bound; the bound is reported.
    OutOfRange(ViolatedBound),
    /// A motor id, throttle percentage or test duration is outside its
    /// allowed range.
    InvalidParameter,
    /// No vehicle snapshot is present.
    VehicleInfoUnavailable,
    /// The underlying state storage failed; raised only by the unverified
    /// shell around this library, never by the library itself.
    StorageAccessFailure,
}

/// The description [`SessionError::message`] returns for each failure.
pub open spec fn message_of(e: SessionError) -> Seq<char> {
    match e {
        SessionError::InvalidFormat => "Invalid connection string format"@,
        SessionError::AlreadyConnected => "Already connected to a drone"@,
        SessionError::NotConnected => "Not connected to drone"@,
        SessionError::HeartbeatTimeout => "Connection lost (heartbeat timeout)"@,
        SessionError::OperationInProgress => "Operation already in progress"@,
        SessionError::ParameterNotFound => "Parameter not found"@,
        SessionError::OutOfRange(ViolatedBound::Minimum(_)) => {
            "Value is below the parameter minimum"@
        },
        SessionError::OutOfRange(ViolatedBound::Maximum(_)) => {
            "Value is above the parameter maximum"@
        },
        SessionError::InvalidParameter => "Invalid motor test parameter"@,
        SessionError::VehicleInfoUnavailable => "Vehicle info not available"@,
        SessionError::StorageAccessFailure => "State storage access failed"@,
    }
}

impl SessionError {
    /// A human-readable description of the failure.
    pub fn message(&self) -> (r: String)
        ensures
            r@ == message_of(*self),
    {
        match self {
            SessionError::InvalidFormat => "Invalid connection string format".to_owned(),
            SessionError::AlreadyConnected => "Already connected to a drone".to_owned(),
            SessionError::NotConnected => "Not connected to drone".to_owned(),
            SessionError::HeartbeatTimeout => "Connection lost (heartbeat timeout)".to_owned(),
            SessionError::OperationInProgress => "Operation already in progress".to_owned(),
            SessionError::ParameterNotFound => "Parameter not found".to_owned(),
            SessionError::OutOfRange(ViolatedBound::Minimum(_)) => {
                "Value is below the parameter minimum".to_owned()
            },
            SessionError::OutOfRange(ViolatedBound::Maximum(_)) => {
                "Value is above the parameter maximum".to_owned()
            },
            SessionError::InvalidParameter => "Invalid motor test parameter".to_owned(),
            SessionError::VehicleInfoUnavailable => "Vehicle info not available".to_owned(),
            SessionError::StorageAccessFailure => "State storage access failed".to_owned(),
        }
    }
}

} // verus!

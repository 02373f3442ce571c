//! Vehicle session and safety-state core for a telemetry-linked unmanned
//! vehicle: connection lifecycle, bounded parameter registry, mutually
//! exclusive calibration / motor-test activity slots, and an
//! emergency-stop path that is independent of every other operation.
//!
//! All fractional quantities (parameter values, link quality, calibration
//! offsets and fitness) are held as integers in thousandths, and all
//! timestamps are milliseconds passed in by the caller, so that every
//! operation is a deterministic, fully specified state transition.

pub mod activity;
pub mod calibration;
pub mod clock;
pub mod connection;
pub mod coords;
pub mod errors;
pub mod laws;
pub mod params;
pub mod safety;
pub mod session;
pub mod text;
pub mod vehicle;

pub use activity::{Activity, ActivityGuard, ActivityKind};
pub use calibration::CalibrationResult;
pub use clock::get_timestamp;
pub use connection::{validate_connection_string, ConnectionStatus};
pub use coords::detect_coordinate_format;
pub use errors::{SessionError, ViolatedBound};
pub use params::{Parameter, ParameterRegistry};
pub use safety::EmergencyStopGuard;
pub use session::{init, MavlinkState};
pub use vehicle::VehicleInfo;

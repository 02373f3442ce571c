//! The emergency-stop flag: the highest-priority state in the system.
//!
//! The flag is a single independently held cell with no dependency on any
//! other part of the session, so that engaging it never waits on anything.
//! Within a session it is monotonic: nothing in this library clears it.

use vstd::prelude::*;

verus! {

/// The system-wide emergency-stop state.
#[derive(Debug, Clone, Copy, PartialEq, Eq, Structural)]
pub struct EmergencyStopGuard {
    /// Whether an emergency stop is in force.
    pub active: bool,
    /// Milliseconds since the epoch of the latest activation, if any.
    pub last_activation: Option<u64>,
}

impl EmergencyStopGuard {
    /// A guard with no emergency stop in force.
    pub fn new() -> (r: Self)
        ensures
            !r.active,
            r.last_activation is None,
    {
        EmergencyStopGuard { active: false, last_activation: None }
    }

    /// Raises the flag and records the activation time. Never fails and
    /// touches nothing but this guard.
    pub fn engage(&mut self, now: u64)
        ensures
            final(self).active,
            final(self).last_activation == Some(now),
    {
        self.active = true;
        self.last_activation = Some(now);
    }
}

} // verus!

//! Mutual exclusion between the long-running exclusive operations.
//!
//! The two activity flags of the session — motor test and calibration —
//! are held as one explicit state, so that at most one of them can be
//! active at any instant by construction rather than by convention.

use vstd::prelude::*;

verus! {

/// Which exclusive operation an activity slot is asked for.
#[derive(Debug, Clone, Copy, PartialEq, Eq, Structural)]
pub enum ActivityKind {
    MotorTest,
    Calibration,
}

/// What the session is doing: nothing exclusive, a motor test, or a
/// calibration. There is no state with both, so the at-most-one-activity
/// invariant holds structurally.
#[derive(Debug, Clone, Copy, PartialEq, Eq, Structural)]
pub enum Activity {
    Idle,
    MotorTest,
    Calibration,
}

/// The activity state an acquired slot of `kind` puts the session in.
pub open spec fn activity_of(kind: ActivityKind) -> Activity {
    match kind {
        ActivityKind::MotorTest => Activity::MotorTest,
        ActivityKind::Calibration => Activity::Calibration,
    }
}

/// Whether a motor test holds the slot.
pub open spec fn motor_test_active(a: Activity) -> bool {
    a is MotorTest
}

/// Whether a calibration holds the slot.
pub open spec fn calibration_active(a: Activity) -> bool {
    a is Calibration
}

/// The mutual-exclusion token for the exclusive long-running operations.
#[derive(Debug, Clone, Copy)]
pub struct ActivityGuard {
    pub current: Activity,
}

impl ActivityGuard {
    /// A guard with no activity in progress.
    pub fn new() -> (r: Self)
        ensures
            r.current == Activity::Idle,
    {
        ActivityGuard { current: Activity::Idle }
    }

    /// Takes the slot for `kind` if, and only if, no activity holds it;
    /// check and acquisition are one step, so no other acquisition can
    /// interleave.
    pub fn try_acquire(&mut self, kind: ActivityKind) -> (r: bool)
        ensures
            r == (old(self).current == Activity::Idle),
            final(self).current == if old(self).current == Activity::Idle {
                activity_of(kind)
            } else {
                old(self).current
            },
    {
        if self.current == Activity::Idle {
            self.current = match kind {
                ActivityKind::MotorTest => Activity::MotorTest,
                ActivityKind::Calibration => Activity::Calibration,
            };
            true
        } else {
            false
        }
    }

    /// Gives the slot back if `kind` holds it; releasing a slot held by
    /// the other kind, or by nobody, changes nothing.
    pub fn release(&mut self, kind: ActivityKind)
        ensures
            final(self).current == if old(self).current == activity_of(kind) {
                Activity::Idle
            } else {
                old(self).current
            },
    {
        let held = match kind {
            ActivityKind::MotorTest => self.current == Activity::MotorTest,
            ActivityKind::Calibration => self.current == Activity::Calibration,
        };
        if held {
            self.current = Activity::Idle;
        }
    }

    /// Whether a motor test holds the slot.
    pub fn motor_test_active(&self) -> (r: bool)
        ensures
            r == motor_test_active(self.current),
    {
        self.current == Activity::MotorTest
    }

    /// Whether a calibration holds the slot.
    pub fn calibration_active(&self) -> (r: bool)
        ensures
            r == calibration_active(self.current),
    {
        self.current == Activity::Calibration
    }
}

} // verus!

//! Per-body kinematic and mass state consumed and mutated by constraints.

use vstd::prelude::*;
use crate::vec::Vec2;
use crate::fixed::SCALAR_MAX;

verus! {

/// How a body takes part in the simulation. `Static` and `Kinematic` bodies
/// are treated as having infinite mass by all constraint math.
#[derive(Clone, Copy, Debug, PartialEq, Eq, Structural)]
pub enum MotionType {
    Dynamic,
    Static,
    Kinematic,
}

impl MotionType {
    pub fn is_dynamic(&self) -> (r: bool)
        ensures
            r == (*self is Dynamic),
    {
        matches!(self, MotionType::Dynamic)
    }
}

/// The kinematic and mass data of one rigid body, in the planar back end:
/// position and linear velocity are vectors, rotation and angular velocity
/// are signed angles, the inverse inertia is a scalar.
#[derive(Clone, Copy, Debug, PartialEq, Eq, Structural)]
pub struct RigidBodyState {
    pub position: Vec2,
    /// Signed rotation angle, in fixed-point radians.
    pub rotation: i64,
    pub lin_vel: Vec2,
    /// Signed angular velocity, in fixed-point radians per second.
    pub ang_vel: i64,
    pub inverse_mass: i64,
    /// World-frame inverse rotational inertia about the out-of-plane axis.
    pub inverse_inertia: i64,
    pub motion_type: MotionType,
}

impl RigidBodyState {
    /// Magnitude bounds under which the solver's arithmetic cannot overflow.
    pub open spec fn wf(self) -> bool {
        &&& self.position@.in_bounds(SCALAR_MAX as int)
        &&& self.lin_vel@.in_bounds(SCALAR_MAX as int)
        &&& -(SCALAR_MAX as int) <= self.rotation <= SCALAR_MAX as int
        &&& -(SCALAR_MAX as int) <= self.ang_vel <= SCALAR_MAX as int
        &&& 0 <= self.inverse_mass <= SCALAR_MAX as int
        &&& 0 <= self.inverse_inertia <= SCALAR_MAX as int
    }

    /// The inverse mass the constraint math sees: zero unless dynamic.
    pub open spec fn eff_inverse_mass(self) -> int {
        if self.motion_type is Dynamic {
            self.inverse_mass as int
        } else {
            0
        }
    }

    /// The inverse inertia the constraint math sees: zero unless dynamic.
    pub open spec fn eff_inverse_inertia(self) -> int {
        if self.motion_type is Dynamic {
            self.inverse_inertia as int
        } else {
            0
        }
    }
}

} // verus!

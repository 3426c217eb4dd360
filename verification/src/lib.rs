//! Constraint-solving core of an XPBD rigid-body physics engine.
//!
//! Scalars are fixed-point: an `i64` counts millionths of a unit, so every
//! operation is exact integer arithmetic and repeated runs of the solver are
//! bit-identical by construction.

use vstd::prelude::*;

pub mod angular;
pub mod body;
pub mod dim3;
pub mod joints;
pub mod fixed;
pub mod resources;
pub mod vec;

verus! {

/// The scalar type of the solver: a fixed-point number counting millionths.
pub type Scalar = i64;

/// The planar vector type of the solver's primary back end.
pub type Vector = crate::vec::Vec2;

/// The spatial vector type used for rotation axes.
pub type Vector3 = crate::vec::Vec3;

/// A torque about the out-of-plane axis.
pub type Torque = i64;

} // verus!

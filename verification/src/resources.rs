//! Configuration values threaded into the solver by the host scheduler.

use vstd::prelude::*;
use crate::vec::{Vec2, V2s};

verus! {

/// How far the simulation advances per physics tick.
#[derive(Clone, Copy, Debug, PartialEq, Eq, Structural)]
pub enum PhysicsTimestep {
    /// Advance by exactly `dt` seconds per physics frame.
    Fixed(i64),
    /// Advance by the frame delta, capped at `max_dt` seconds per tick.
    Variable {
        /// The largest step a single tick may take.
        max_dt: i64,
    },
}

impl Default for PhysicsTimestep {
    /// A fixed step of one sixtieth of a second.
    fn default() -> (r: Self)
        ensures
            r == PhysicsTimestep::Fixed(16_667i64),
    {
        PhysicsTimestep::Fixed(16_667)
    }
}

/// How much time the previous physics frame took, in fixed-point seconds.
#[derive(Clone, Copy, Debug, PartialEq, Eq, Structural)]
pub struct DeltaTime(pub i64);

impl Default for DeltaTime {
    fn default() -> (r: Self)
        ensures
            r.0 == 0,
    {
        DeltaTime(0)
    }
}

/// How much time one physics substep takes, in fixed-point seconds.
#[derive(Clone, Copy, Debug, PartialEq, Eq, Structural)]
pub struct SubDeltaTime(pub i64);

impl Default for SubDeltaTime {
    fn default() -> (r: Self)
        ensures
            r.0 == 0,
    {
        SubDeltaTime(0)
    }
}

/// The number of substeps one frame is divided into.
#[derive(Clone, Copy, Debug, PartialEq, Eq, Structural)]
pub struct NumSubsteps(pub u32);

impl Default for NumSubsteps {
    fn default() -> (r: Self)
        ensures
            r.0 == 8,
    {
        NumSubsteps(8)
    }
}

/// The number of iterations of the position solver within one substep.
#[derive(Clone, Copy, Debug, PartialEq, Eq, Structural)]
pub struct NumPosIters(pub u32);

impl Default for NumPosIters {
    fn default() -> (r: Self)
        ensures
            r.0 == 4,
    {
        NumPosIters(4)
    }
}

/// The global gravitational acceleration applied to dynamic bodies.
#[derive(Clone, Copy, Debug, PartialEq, Eq, Structural)]
pub struct Gravity(pub Vec2);

impl Default for Gravity {
    /// An acceleration of 9.81 units per square second, pointing down.
    fn default() -> (r: Self)
        ensures
            r.0@ == (V2s { x: 0, y: -9_810_000 }),
    {
        Gravity(Vec2 { x: 0, y: -9_810_000 })
    }
}

impl Gravity {
    pub fn zero() -> (r: Self)
        ensures
            r.0@ == (V2s { x: 0, y: 0 }),
    {
        Gravity(Vec2 { x: 0, y: 0 })
    }
}

} // verus!

//! Angular constraints: rotational corrections driven by a Lagrange
//! multiplier increment, after the extended position-based dynamics
//! formulation.

use vstd::prelude::*;
use crate::body::RigidBodyState;
use crate::fixed::{fmul, fmul_s, fdiv, fdiv_s, tdiv, lemma_tdiv_bound, lemma_tdiv_nonneg,
    lemma_fmul_nn, EPSILON, SCALE, SCALAR_MAX};
use crate::vec::{Vec3, V3s};

verus! {

/// The angular impulse that a Lagrange increment produces about the
/// out-of-plane axis; zero unless the increment is meaningfully negative.
pub open spec fn angular_impulse_s(delta_lagrange: int, axis: V3s) -> int {
    if delta_lagrange >= -(EPSILON as int) {
        0
    } else {
        fmul_s(-delta_lagrange, axis.z)
    }
}

/// The incremental rotation angle an impulse produces on a body with the
/// given inverse inertia: exact in the planar back end, not a linearization.
pub open spec fn delta_rot_s(inv_inertia: int, p: int) -> int {
    fmul_s(inv_inertia, p)
}

/// The rotation of a body after receiving impulse `p`; the leading body
/// turns with the impulse, the other against it; non-dynamic bodies do not
/// move.
pub open spec fn rot_after_s(b: RigidBodyState, p: int, leading: bool) -> int {
    if b.motion_type is Dynamic {
        if leading {
            b.rotation + delta_rot_s(b.inverse_inertia as int, p)
        } else {
            b.rotation - delta_rot_s(b.inverse_inertia as int, p)
        }
    } else {
        b.rotation as int
    }
}

/// The generalized inverse mass a body presents to a unit angular impulse
/// along `axis`: `axis . (inverse_inertia * axis)`, zero unless dynamic.
pub open spec fn generalized_inverse_mass_s(b: RigidBodyState, axis: V3s) -> int {
    if b.motion_type is Dynamic {
        fmul_s(b.inverse_inertia as int, axis.dot_s(axis))
    } else {
        0
    }
}

/// The torque recovered from an accumulated multiplier over a substep:
/// `lagrange * axis.z / dt^2`.
pub open spec fn torque_s(lagrange: int, axis: V3s, dt: int) -> int {
    fdiv_s(fmul_s(lagrange, axis.z), fmul_s(dt, dt))
}

/// Rotational corrections between two bodies, driven by a Lagrange
/// multiplier increment.
///
/// In the planar back end `axis` is the out-of-plane direction: a vector
/// whose `z` component is plus or minus one unit and decides whether the
/// leading body turns counterclockwise or clockwise.
pub trait AngularConstraint {
    /// Applies an angular correction about `axis` to both bodies and
    /// returns the angular impulse that was applied.
    ///
    /// Corrections fire only for a meaningfully negative increment: when
    /// `delta_lagrange >= -EPSILON` nothing moves and the impulse is zero.
    /// The leading body turns with the impulse and the second body against
    /// it; bodies that are not dynamic are never touched.
    fn apply_angular_correction(
        &self,
        body1: &mut RigidBodyState,
        body2: &mut RigidBodyState,
        delta_lagrange: i64,
        axis: Vec3,
    ) -> (p: i64)
        requires
            -(SCALAR_MAX as int) <= delta_lagrange <= SCALAR_MAX as int,
            axis@.in_bounds(SCALE as int),
            0 <= old(body1).inverse_inertia <= SCALAR_MAX as int,
            0 <= old(body2).inverse_inertia <= SCALAR_MAX as int,
            -4_000_000_000_000_000_000 <= old(body1).rotation <= 4_000_000_000_000_000_000,
            -4_000_000_000_000_000_000 <= old(body2).rotation <= 4_000_000_000_000_000_000,
        ensures
            p == angular_impulse_s(delta_lagrange as int, axis@),
            -(SCALAR_MAX as int) <= p <= SCALAR_MAX as int,
            final(body1).rotation == rot_after_s(*old(body1), p as int, true),
            final(body2).rotation == rot_after_s(*old(body2), p as int, false),
            final(body1).position == old(body1).position,
            final(body1).lin_vel == old(body1).lin_vel,
            final(body1).ang_vel == old(body1).ang_vel,
            final(body1).inverse_mass == old(body1).inverse_mass,
            final(body1).inverse_inertia == old(body1).inverse_inertia,
            final(body1).motion_type == old(body1).motion_type,
            final(body2).position == old(body2).position,
            final(body2).lin_vel == old(body2).lin_vel,
            final(body2).ang_vel == old(body2).ang_vel,
            final(body2).inverse_mass == old(body2).inverse_mass,
            final(body2).inverse_inertia == old(body2).inverse_inertia,
            final(body2).motion_type == old(body2).motion_type,
            delta_lagrange as int >= -(EPSILON as int) ==> p == 0 && *final(body1) == *old(
                body1,
            ) && *final(body2) == *old(body2),
    ;

    /// The generalized inverse mass the body presents to a unit angular
    /// impulse along `axis`: non-negative, and exactly zero for bodies that
    /// are not dynamic.
    fn compute_generalized_inverse_mass(&self, body: &RigidBodyState, axis: Vec3) -> (w: i64)
        requires
            0 <= body.inverse_inertia <= SCALAR_MAX as int,
            axis@.in_bounds(SCALE as int),
        ensures
            w == generalized_inverse_mass_s(*body, axis@),
            0 <= w <= 3_000_000_000_000,
            !(body.motion_type is Dynamic) ==> w == 0,
    ;

    /// The incremental rotation caused by impulse `p` on a body with the
    /// given inverse inertia. The current rotation does not enter in the
    /// planar back end; the increment is an exact angle.
    fn get_delta_rot(rot: i64, inv_inertia: i64, p: i64) -> (r: i64)
        requires
            0 <= inv_inertia <= SCALAR_MAX as int,
            -(SCALAR_MAX as int) <= p <= SCALAR_MAX as int,
        ensures
            r == delta_rot_s(inv_inertia as int, p as int),
            -1_000_000_000_000_000_000 <= r <= 1_000_000_000_000_000_000,
    ;

    /// The torque acting along the constraint, recovered from the
    /// accumulated multiplier: `lagrange * axis.z / dt^2`.
    fn compute_torque(&self, lagrange: i64, axis: Vec3, dt: i64) -> (t: i64)
        requires
            -(SCALAR_MAX as int) <= lagrange <= SCALAR_MAX as int,
            axis@.in_bounds(SCALE as int),
            1_000 <= dt <= SCALE as int,
        ensures
            t == torque_s(lagrange as int, axis@, dt as int),
    ;
}

/// For a dynamic body the generalized inverse mass is never negative, and
/// the exact quantity it rounds — `inverse_inertia * (axis . axis)` — is
/// linear in the inverse inertia: a body with `k` times the inverse
/// inertia presents `k` times that quantity to the same axis. (The final
/// fixed-point value rounds this product toward zero once.)
pub proof fn lemma_generalized_inverse_mass_linear(
    b: RigidBodyState,
    bk: RigidBodyState,
    axis: V3s,
    k: int,
)
    requires
        b.motion_type is Dynamic,
        bk.motion_type is Dynamic,
        0 <= b.inverse_inertia,
        k >= 0,
        bk.inverse_inertia == k * b.inverse_inertia,
    ensures
        generalized_inverse_mass_s(b, axis) >= 0,
        bk.inverse_inertia * axis.dot_s(axis) == k * (b.inverse_inertia * axis.dot_s(axis)),
{
    assert(axis.x * axis.x >= 0 && axis.y * axis.y >= 0 && axis.z * axis.z >= 0)
        by (nonlinear_arith);
    lemma_tdiv_nonneg(axis.x * axis.x, SCALE as int);
    lemma_tdiv_nonneg(axis.y * axis.y, SCALE as int);
    lemma_tdiv_nonneg(axis.z * axis.z, SCALE as int);
    let d = axis.dot_s(axis);
    assert(b.inverse_inertia as int * d >= 0) by (nonlinear_arith)
        requires
            0 <= b.inverse_inertia,
            0 <= d,
    ;
    lemma_tdiv_nonneg(b.inverse_inertia as int * d, SCALE as int);
    assert((k * b.inverse_inertia) * d == k * (b.inverse_inertia * d)) by (nonlinear_arith);
}

/// For a body that is not dynamic, the generalized inverse mass along any
/// axis is exactly zero: immovable bodies present infinite mass.
pub proof fn lemma_generalized_inverse_mass_static(b: RigidBodyState, axis: V3s)
    requires
        !(b.motion_type is Dynamic),
    ensures
        generalized_inverse_mass_s(b, axis) == 0,
{
}

} // verus!

//! The spatial (quaternion) back end of the angular constraint: the same
//! operations as the planar one, with a unit-quaternion rotation, a full
//! 3 x 3 world-frame inverse inertia, and a vector impulse.
//!
//! Incremental rotation updates are first-order: the caller renormalizes
//! the quaternion after accumulating increments within a step.

use vstd::prelude::*;
use crate::body::MotionType;
use crate::fixed::{
    fmul, fmul_s, fdiv, fdiv_s, lemma_fmul_abs, lemma_tdiv_bound, lemma_tdiv_nonneg, EPSILON,
    SCALE, SCALAR_MAX,
};
use crate::vec::{lemma_dot3_bounds, Vec3, V3s};

verus! {

/// Spec model of a quaternion: unbounded integer components.
pub struct Q4s {
    pub x: int,
    pub y: int,
    pub z: int,
    pub w: int,
}

impl Q4s {
    pub open spec fn add_s(self, o: Q4s) -> Q4s {
        Q4s { x: self.x + o.x, y: self.y + o.y, z: self.z + o.z, w: self.w + o.w }
    }

    /// The Hamilton product of two quaternions, in fixed point.
    pub open spec fn mul_s(self, o: Q4s) -> Q4s {
        Q4s {
            x: fmul_s(self.w, o.x) + fmul_s(self.x, o.w) + fmul_s(self.y, o.z) - fmul_s(
                self.z,
                o.y,
            ),
            y: fmul_s(self.w, o.y) - fmul_s(self.x, o.z) + fmul_s(self.y, o.w) + fmul_s(
                self.z,
                o.x,
            ),
            z: fmul_s(self.w, o.z) + fmul_s(self.x, o.y) - fmul_s(self.y, o.x) + fmul_s(
                self.z,
                o.w,
            ),
            w: fmul_s(self.w, o.w) - fmul_s(self.x, o.x) - fmul_s(self.y, o.y) - fmul_s(
                self.z,
                o.z,
            ),
        }
    }

    pub open spec fn in_bounds(self, m: int) -> bool {
        -m <= self.x <= m && -m <= self.y <= m && -m <= self.z <= m && -m <= self.w <= m
    }
}

/// A rotation quaternion of fixed-point scalars.
#[derive(Clone, Copy, Debug, PartialEq, Eq, Structural)]
pub struct Quat {
    pub x: i64,
    pub y: i64,
    pub z: i64,
    pub w: i64,
}

impl View for Quat {
    type V = Q4s;

    open spec fn view(&self) -> Q4s {
        Q4s { x: self.x as int, y: self.y as int, z: self.z as int, w: self.w as int }
    }
}

impl Quat {
    /// The identity rotation.
    pub fn identity() -> (r: Quat)
        ensures
            r@ == (Q4s { x: 0, y: 0, z: 0, w: SCALE as int }),
    {
        Quat { x: 0, y: 0, z: 0, w: SCALE }
    }

    /// Componentwise sum, as accumulated by unnormalized increments.
    pub fn add(self, o: Quat) -> (r: Quat)
        requires
            self@.in_bounds(2_000_000_000_000_000_000),
            o@.in_bounds(2_000_000_000_000_000_000),
        ensures
            r@ == self@.add_s(o@),
    {
        Quat { x: self.x + o.x, y: self.y + o.y, z: self.z + o.z, w: self.w + o.w }
    }

    /// The Hamilton product of a small increment with a unit-scale
    /// rotation.
    pub fn mul(self, o: Quat) -> (r: Quat)
        requires
            self@.in_bounds(2_000_000_000_000),
            o@.in_bounds(SCALAR_MAX as int),
        ensures
            r@ == self@.mul_s(o@),
            r@.in_bounds(8_000_000_000_000_000),
    {
        proof {
            lemma_fmul_abs(self@.w, o@.x, 2_000_000_000_000, SCALAR_MAX as int,
                2_000_000_000_000_000);
            lemma_fmul_abs(self@.x, o@.w, 2_000_000_000_000, SCALAR_MAX as int,
                2_000_000_000_000_000);
            lemma_fmul_abs(self@.y, o@.z, 2_000_000_000_000, SCALAR_MAX as int,
                2_000_000_000_000_000);
            lemma_fmul_abs(self@.z, o@.y, 2_000_000_000_000, SCALAR_MAX as int,
                2_000_000_000_000_000);
            lemma_fmul_abs(self@.w, o@.y, 2_000_000_000_000, SCALAR_MAX as int,
                2_000_000_000_000_000);
            lemma_fmul_abs(self@.x, o@.z, 2_000_000_000_000, SCALAR_MAX as int,
                2_000_000_000_000_000);
            lemma_fmul_abs(self@.y, o@.w, 2_000_000_000_000, SCALAR_MAX as int,
                2_000_000_000_000_000);
            lemma_fmul_abs(self@.z, o@.x, 2_000_000_000_000, SCALAR_MAX as int,
                2_000_000_000_000_000);
            lemma_fmul_abs(self@.w, o@.z, 2_000_000_000_000, SCALAR_MAX as int,
                2_000_000_000_000_000);
            lemma_fmul_abs(self@.x, o@.y, 2_000_000_000_000, SCALAR_MAX as int,
                2_000_000_000_000_000);
            lemma_fmul_abs(self@.y, o@.x, 2_000_000_000_000, SCALAR_MAX as int,
                2_000_000_000_000_000);
            lemma_fmul_abs(self@.z, o@.w, 2_000_000_000_000, SCALAR_MAX as int,
                2_000_000_000_000_000);
            lemma_fmul_abs(self@.w, o@.w, 2_000_000_000_000, SCALAR_MAX as int,
                2_000_000_000_000_000);
            lemma_fmul_abs(self@.x, o@.x, 2_000_000_000_000, SCALAR_MAX as int,
                2_000_000_000_000_000);
            lemma_fmul_abs(self@.y, o@.y, 2_000_000_000_000, SCALAR_MAX as int,
                2_000_000_000_000_000);
            lemma_fmul_abs(self@.z, o@.z, 2_000_000_000_000, SCALAR_MAX as int,
                2_000_000_000_000_000);
        }
        Quat {
            x: fmul(self.w, o.x) + fmul(self.x, o.w) + fmul(self.y, o.z) - fmul(self.z, o.y),
            y: fmul(self.w, o.y) - fmul(self.x, o.z) + fmul(self.y, o.w) + fmul(self.z, o.x),
            z: fmul(self.w, o.z) + fmul(self.x, o.y) - fmul(self.y, o.x) + fmul(self.z, o.w),
            w: fmul(self.w, o.w) - fmul(self.x, o.x) - fmul(self.y, o.y) - fmul(self.z, o.z),
        }
    }
}

/// A 3 x 3 world-frame inverse inertia tensor, stored by rows.
#[derive(Clone, Copy, Debug, PartialEq, Eq, Structural)]
pub struct Mat3 {
    pub row_x: Vec3,
    pub row_y: Vec3,
    pub row_z: Vec3,
}

impl Mat3 {
    pub open spec fn in_bounds(self, m: int) -> bool {
        self.row_x@.in_bounds(m) && self.row_y@.in_bounds(m) && self.row_z@.in_bounds(m)
    }

    /// The matrix applied to a vector.
    pub open spec fn mul_vec_s(self, v: V3s) -> V3s {
        V3s { x: self.row_x@.dot_s(v), y: self.row_y@.dot_s(v), z: self.row_z@.dot_s(v) }
    }

    /// The matrix applied to a vector.
    pub fn mul_vec(self, v: Vec3) -> (r: Vec3)
        requires
            self.in_bounds(SCALAR_MAX as int),
            v@.in_bounds(SCALAR_MAX as int),
        ensures
            r@ == self.mul_vec_s(v@),
            r@.in_bounds(3_000_000_000_000),
    {
        proof {
            lemma_dot3_bounds(self.row_x@, v@, SCALAR_MAX as int, SCALAR_MAX as int,
                1_000_000_000_000);
            lemma_dot3_bounds(self.row_y@, v@, SCALAR_MAX as int, SCALAR_MAX as int,
                1_000_000_000_000);
            lemma_dot3_bounds(self.row_z@, v@, SCALAR_MAX as int, SCALAR_MAX as int,
                1_000_000_000_000);
        }
        Vec3 { x: self.row_x.dot(v), y: self.row_y.dot(v), z: self.row_z.dot(v) }
    }
}

/// The kinematic and mass data of one rigid body in the spatial back end.
#[derive(Clone, Copy, Debug, PartialEq, Eq, Structural)]
pub struct RigidBodyState3 {
    pub rotation: Quat,
    /// World-frame inverse rotational inertia.
    pub inverse_inertia: Mat3,
    pub motion_type: MotionType,
}

impl RigidBodyState3 {
    pub open spec fn wf(self) -> bool {
        &&& self.rotation@.in_bounds(SCALAR_MAX as int)
        &&& self.inverse_inertia.in_bounds(SCALAR_MAX as int)
    }
}

/// The incremental rotation an impulse produces: the first-order
/// exponential-map step `(0.5 * inverse_inertia * p, 0) * rotation`.
pub open spec fn delta_rot3_s(rot: Q4s, inv_inertia: Mat3, p: V3s) -> Q4s {
    let v = inv_inertia.mul_vec_s(p).scale_s(500_000);
    (Q4s { x: v.x, y: v.y, z: v.z, w: 0 }).mul_s(rot)
}

/// The rotation of a body after receiving impulse `p`; the leading body
/// turns with the impulse, the other against it; non-dynamic bodies do not
/// move. Increments are accumulated componentwise, unnormalized.
pub open spec fn rot3_after_s(b: RigidBodyState3, p: V3s, leading: bool) -> Q4s {
    if b.motion_type is Dynamic {
        if leading {
            b.rotation@.add_s(delta_rot3_s(b.rotation@, b.inverse_inertia, p))
        } else {
            let d = delta_rot3_s(b.rotation@, b.inverse_inertia, p);
            b.rotation@.add_s(Q4s { x: -d.x, y: -d.y, z: -d.z, w: -d.w })
        }
    } else {
        b.rotation@
    }
}

/// The vector angular impulse of a Lagrange increment: zero unless the
/// increment is meaningfully negative, else `-delta_lagrange * axis`.
pub open spec fn angular_impulse3_s(delta_lagrange: int, axis: V3s) -> V3s {
    if delta_lagrange >= -(EPSILON as int) {
        V3s { x: 0, y: 0, z: 0 }
    } else {
        axis.scale_s(-delta_lagrange)
    }
}

/// The incremental rotation caused by impulse `p` on a body with the given
/// inverse inertia: a first-order linearization, valid for small
/// per-substep rotations.
pub fn get_delta_rot(rot: Quat, inv_inertia: Mat3, p: Vec3) -> (r: Quat)
    requires
        rot@.in_bounds(SCALAR_MAX as int),
        inv_inertia.in_bounds(SCALAR_MAX as int),
        p@.in_bounds(SCALAR_MAX as int),
    ensures
        r@ == delta_rot3_s(rot@, inv_inertia, p@),
        r@.in_bounds(8_000_000_000_000_000),
{
    let v = inv_inertia.mul_vec(p);
    proof {
        lemma_fmul_abs(v@.x, 500_000, 3_000_000_000_000, 500_000, 1_500_000_000_000);
        lemma_fmul_abs(v@.y, 500_000, 3_000_000_000_000, 500_000, 1_500_000_000_000);
        lemma_fmul_abs(v@.z, 500_000, 3_000_000_000_000, 500_000, 1_500_000_000_000);
    }
    let q = Quat { x: fmul(v.x, 500_000), y: fmul(v.y, 500_000), z: fmul(v.z, 500_000), w: 0 };
    q.mul(rot)
}

/// Applies an angular correction about `axis` to both bodies and returns
/// the vector angular impulse that was applied: zero, with nothing moved,
/// unless `delta_lagrange` is meaningfully negative.
pub fn apply_angular_correction(
    body1: &mut RigidBodyState3,
    body2: &mut RigidBodyState3,
    delta_lagrange: i64,
    axis: Vec3,
) -> (p: Vec3)
    requires
        old(body1).wf(),
        old(body2).wf(),
        -(SCALAR_MAX as int) <= delta_lagrange <= SCALAR_MAX as int,
        axis@.in_bounds(SCALE as int),
    ensures
        p@ == angular_impulse3_s(delta_lagrange as int, axis@),
        final(body1).rotation@ == rot3_after_s(*old(body1), p@, true),
        final(body2).rotation@ == rot3_after_s(*old(body2), p@, false),
        final(body1).inverse_inertia == old(body1).inverse_inertia,
        final(body1).motion_type == old(body1).motion_type,
        final(body2).inverse_inertia == old(body2).inverse_inertia,
        final(body2).motion_type == old(body2).motion_type,
        delta_lagrange as int >= -(EPSILON as int) ==> p@ == (V3s { x: 0, y: 0, z: 0 })
            && *final(body1) == *old(body1) && *final(body2) == *old(body2),
{
    if delta_lagrange >= -EPSILON {
        return Vec3 { x: 0, y: 0, z: 0 };
    }
    proof {
        lemma_fmul_abs(axis@.x, -delta_lagrange as int, SCALE as int, SCALAR_MAX as int,
            SCALAR_MAX as int);
        lemma_fmul_abs(axis@.y, -delta_lagrange as int, SCALE as int, SCALAR_MAX as int,
            SCALAR_MAX as int);
        lemma_fmul_abs(axis@.z, -delta_lagrange as int, SCALE as int, SCALAR_MAX as int,
            SCALAR_MAX as int);
    }
    let p = axis.scale(-delta_lagrange);
    if body1.motion_type.is_dynamic() {
        let rot1 = body1.rotation;
        body1.rotation = rot1.add(get_delta_rot(rot1, body1.inverse_inertia, p));
    }
    if body2.motion_type.is_dynamic() {
        let rot2 = body2.rotation;
        let d = get_delta_rot(rot2, body2.inverse_inertia, p);
        body2.rotation = rot2.add(Quat { x: -d.x, y: -d.y, z: -d.z, w: -d.w });
    }
    p
}

/// The generalized inverse mass the body presents to a unit angular
/// impulse along `axis`: `axis . (inverse_inertia * axis)`, non-negative
/// for a well-formed tensor's diagonal form, and exactly zero for bodies
/// that are not dynamic.
pub open spec fn generalized_inverse_mass3_s(b: RigidBodyState3, axis: V3s) -> int {
    if b.motion_type is Dynamic {
        axis.dot_s(b.inverse_inertia.mul_vec_s(axis))
    } else {
        0
    }
}

/// The generalized inverse mass along `axis`; zero for bodies that are not
/// dynamic.
pub fn compute_generalized_inverse_mass(body: &RigidBodyState3, axis: Vec3) -> (w: i64)
    requires
        body.wf(),
        axis@.in_bounds(SCALE as int),
    ensures
        w == generalized_inverse_mass3_s(*body, axis@),
        !(body.motion_type is Dynamic) ==> w == 0,
{
    if body.motion_type.is_dynamic() {
        let m = body.inverse_inertia.mul_vec(axis);
        proof {
            lemma_fmul_abs(axis@.x, m@.x, SCALE as int, 3_000_000_000_000, 3_000_000_000_000);
            lemma_fmul_abs(axis@.y, m@.y, SCALE as int, 3_000_000_000_000, 3_000_000_000_000);
            lemma_fmul_abs(axis@.z, m@.z, SCALE as int, 3_000_000_000_000, 3_000_000_000_000);
        }
        fmul(axis.x, m.x) + fmul(axis.y, m.y) + fmul(axis.z, m.z)
    } else {
        0
    }
}

/// The torque recovered from an accumulated multiplier over a substep:
/// `lagrange * axis / dt^2`, componentwise.
pub open spec fn torque3_s(lagrange: int, axis: V3s, dt: int) -> V3s {
    let dt2 = fmul_s(dt, dt);
    V3s {
        x: fdiv_s(fmul_s(lagrange, axis.x), dt2),
        y: fdiv_s(fmul_s(lagrange, axis.y), dt2),
        z: fdiv_s(fmul_s(lagrange, axis.z), dt2),
    }
}

/// The torque acting along the constraint, recovered from the accumulated
/// multiplier: `lagrange * axis / dt^2`.
pub fn compute_torque(lagrange: i64, axis: Vec3, dt: i64) -> (t: Vec3)
    requires
        -(SCALAR_MAX as int) <= lagrange <= SCALAR_MAX as int,
        axis@.in_bounds(SCALE as int),
        1_000 <= dt <= SCALE as int,
    ensures
        t@ == torque3_s(lagrange as int, axis@, dt as int),
{
    proof {
        assert(SCALE as int <= dt as int * dt as int <= 1_000_000 * SCALE) by (nonlinear_arith)
            requires
                1_000 <= dt <= SCALE as int,
        ;
        lemma_tdiv_bound(dt as int * dt as int, SCALE as int, 1_000_000);
        vstd::arithmetic::div_mod::lemma_div_is_ordered(
            SCALE as int,
            dt as int * dt as int,
            SCALE as int,
        );
        vstd::arithmetic::div_mod::lemma_div_by_self(SCALE as int);
        assert(1 <= fmul_s(dt as int, dt as int));
    }
    let dt2 = fmul(dt, dt);
    proof {
        lemma_fmul_abs(lagrange as int, axis@.x, SCALAR_MAX as int, SCALE as int,
            SCALAR_MAX as int);
        lemma_fmul_abs(lagrange as int, axis@.y, SCALAR_MAX as int, SCALE as int,
            SCALAR_MAX as int);
        lemma_fmul_abs(lagrange as int, axis@.z, SCALAR_MAX as int, SCALE as int,
            SCALAR_MAX as int);
        let nx = fmul_s(lagrange as int, axis@.x);
        let ny = fmul_s(lagrange as int, axis@.y);
        let nz = fmul_s(lagrange as int, axis@.z);
        assert(nx * SCALE <= 9_223_372_036_854_775_807 * dt2 as int && nx * SCALE
            >= -9_223_372_036_854_775_807 * dt2 as int && ny * SCALE <= 9_223_372_036_854_775_807
            * dt2 as int && ny * SCALE >= -9_223_372_036_854_775_807 * dt2 as int && nz * SCALE
            <= 9_223_372_036_854_775_807 * dt2 as int && nz * SCALE
            >= -9_223_372_036_854_775_807 * dt2 as int) by (nonlinear_arith)
            requires
                -1_000_000_000 <= nx <= 1_000_000_000,
                -1_000_000_000 <= ny <= 1_000_000_000,
                -1_000_000_000 <= nz <= 1_000_000_000,
                1 <= dt2 as int,
                SCALE == 1_000_000,
        ;
    }
    Vec3 {
        x: fdiv(fmul(lagrange, axis.x), dt2),
        y: fdiv(fmul(lagrange, axis.y), dt2),
        z: fdiv(fmul(lagrange, axis.z), dt2),
    }
}

} // verus!

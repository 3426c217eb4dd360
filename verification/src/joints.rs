//! Joints: constraints that attach pairs of bodies and restrict their
//! relative positional and rotational degrees of freedom.
//!
//! One parameterized joint type covers the built-in variants; which axes and
//! limits are populated decides its behavior.

use vstd::prelude::*;
use crate::angular::{
    AngularConstraint, angular_impulse_s, delta_rot_s, generalized_inverse_mass_s,
};
use crate::body::RigidBodyState;
use crate::fixed::{
    abs_s, asin_fp, asin_s, clamp, clamp_s, cos_s, fmul, fmul_s, fdiv, fdiv_s, lemma_fmul_abs,
    lemma_fmul_nn, lemma_tdiv_bound, lemma_tdiv_nonneg, muldiv, muldiv_s, sin_s, tdiv, wrap_angle,
    wrap_angle_s, EPSILON, PI_FP, SCALE, SCALAR_MAX, TWO_PI_FP,
};
use crate::vec::{lemma_cross3_bounds, lemma_dot3_bounds, lemma_scale3_bounds};
use crate::vec::{Vec2, Vec3, V2s, V3s};

verus! {

/// The world-space offset between the two anchor points.
pub open spec fn anchor_offset_s(r1: V2s, r2: V2s, p1: V2s, p2: V2s) -> V2s {
    p2.add_s(r2).sub_s(p1.add_s(r1))
}

/// The positional correction that pulls a separation below `min` up to
/// `min` and a separation above `max` down to `max`; zero inside the range
/// or for nearly coincident anchors.
pub open spec fn limit_distance_s(min: int, max: int, r1: V2s, r2: V2s, p1: V2s, p2: V2s) -> V2s {
    let off = anchor_offset_s(r1, r2, p1, p2);
    let d = off.len_s();
    if d <= EPSILON as int {
        V2s { x: 0, y: 0 }
    } else if d < min {
        V2s { x: -muldiv_s(off.x, d - min, d), y: -muldiv_s(off.y, d - min, d) }
    } else if d > max {
        V2s { x: -muldiv_s(off.x, d - max, d), y: -muldiv_s(off.y, d - max, d) }
    } else {
        V2s { x: 0, y: 0 }
    }
}

/// The correction that keeps the scalar projection of the anchor offset
/// onto `axis` within `[min, max]`.
pub open spec fn limit_distance_along_axis_s(
    min: int,
    max: int,
    axis: V2s,
    r1: V2s,
    r2: V2s,
    p1: V2s,
    p2: V2s,
) -> V2s {
    let off = anchor_offset_s(r1, r2, p1, p2);
    let a = off.dot_s(axis);
    if a < min {
        axis.scale_s(min - a)
    } else if a > max {
        axis.scale_s(max - a)
    } else {
        V2s { x: 0, y: 0 }
    }
}

/// The signed angle between `n1` and `n2` about the common axis `n`,
/// wrapped into `[-pi, pi]`: the arcsine of the projected cross product,
/// flipped across pi/2 when the axes point away from each other.
pub open spec fn joint_angle_s(n: V3s, n1: V3s, n2: V3s) -> int {
    let sine = clamp_s(n1.cross_s(n2).dot_s(n), -(SCALE as int), SCALE as int);
    let phi0 = asin_s(sine);
    let phi1 = if n1.dot_s(n2) < 0 {
        PI_FP as int - phi0
    } else {
        phi0
    };
    let phi2 = if phi1 > PI_FP as int {
        phi1 - TWO_PI_FP as int
    } else {
        phi1
    };
    if phi2 < -(PI_FP as int) {
        phi2 + TWO_PI_FP as int
    } else {
        phi2
    }
}

/// `v` turned by angle `phi` about the unit axis `n`, by the axis-angle
/// rotation formula.
pub open spec fn rotate_about_axis_s(v: V3s, n: V3s, phi: int) -> V3s {
    let c = cos_s(phi);
    let s = sin_s(phi);
    v.scale_s(c).add_s(n.cross_s(v).scale_s(s)).add_s(
        n.scale_s(fmul_s(n.dot_s(v), SCALE as int - c)),
    )
}

/// The angular correction that brings the angle between `n1` and `n2`
/// about `n` back into `[alpha, beta]`: `None` when the angle already lies
/// in the range, otherwise the corrective vector, capped at
/// `max_correction`.
pub open spec fn limit_angle_s(
    n: V3s,
    n1: V3s,
    n2: V3s,
    alpha: int,
    beta: int,
    max_correction: int,
) -> Option<V3s> {
    let phi = joint_angle_s(n, n1, n2);
    if phi < alpha || phi > beta {
        let clamped = clamp_s(phi, alpha, beta);
        let omega = rotate_about_axis_s(n1, n, clamped).cross_s(n2);
        let len = omega.len_s();
        if len > max_correction {
            Some(
                V3s {
                    x: muldiv_s(omega.x, max_correction, len),
                    y: muldiv_s(omega.y, max_correction, len),
                    z: muldiv_s(omega.z, max_correction, len),
                },
            )
        } else {
            Some(omega)
        }
    } else {
        None
    }
}


/// The time-scaled compliance of the XPBD formulation:
/// `compliance / dt^2`.
pub open spec fn alpha_tilde_s(compliance: int, dt: int) -> int {
    fdiv_s(compliance, fmul_s(dt, dt))
}

/// The XPBD multiplier increment `(-c - alpha_tilde * lagrange) / (w_sum +
/// alpha_tilde)`: zero when nothing can move, and clamped into the
/// representable scalar range.
pub open spec fn lagrange_update_s(c: int, lagrange: int, alpha_tilde: int, w_sum: int) -> int {
    let denom = w_sum + alpha_tilde;
    if denom <= 0 {
        0
    } else {
        let num = c + fmul_s(alpha_tilde, lagrange);
        clamp_s(-tdiv(num * (SCALE as int), denom), -(SCALAR_MAX as int), SCALAR_MAX as int)
    }
}

/// The generalized inverse mass a body presents to a unit positional
/// impulse along `dir` applied at the anchor offset `r`:
/// `1/m + (r x dir)^2 / I`, zero unless dynamic.
pub open spec fn pos_generalized_inverse_mass_s(b: RigidBodyState, r: V2s, dir: V2s) -> int {
    if b.motion_type is Dynamic {
        b.inverse_mass + fmul_s(b.inverse_inertia as int, fmul_s(r.cross_s(dir), r.cross_s(dir)))
    } else {
        0
    }
}

/// The positional correction a joint asks for: the anchors pinned together
/// (or held inside the distance limit), and, for a prismatic joint, the
/// offset confined to the free axis.
pub open spec fn delta_x_s(j: Joint, b1: RigidBodyState, b2: RigidBodyState) -> V2s {
    let r1 = j.local_anchor_1@.rotate_s(b1.rotation as int);
    let r2 = j.local_anchor_2@.rotate_s(b2.rotation as int);
    if j.free_axis is Some {
        let axis_w = j.free_axis->0@.rotate_s(b1.rotation as int);
        let perp = V2s { x: -axis_w.y, y: axis_w.x };
        let base = limit_distance_along_axis_s(0, 0, perp, r1, r2, b1.position@, b2.position@);
        if j.distance_limit is Some {
            base.add_s(
                limit_distance_along_axis_s(
                    j.distance_limit->0.min as int,
                    j.distance_limit->0.max as int,
                    axis_w,
                    r1,
                    r2,
                    b1.position@,
                    b2.position@,
                ),
            )
        } else {
            base
        }
    } else {
        let dmin = if j.distance_limit is Some {
            j.distance_limit->0.min as int
        } else {
            0
        };
        let dmax = if j.distance_limit is Some {
            j.distance_limit->0.max as int
        } else {
            0
        };
        limit_distance_s(dmin, dmax, r1, r2, b1.position@, b2.position@)
    }
}

/// What the positional solve of one substep does: the multiplier increment
/// and the new positions and rotations of the two bodies.
pub open spec fn positional_results_s(j: Joint, b1: RigidBodyState, b2: RigidBodyState, dt: int)
    -> (int, V2s, V2s, int, int) {
    let r1 = j.local_anchor_1@.rotate_s(b1.rotation as int);
    let r2 = j.local_anchor_2@.rotate_s(b2.rotation as int);
    let dx = delta_x_s(j, b1, b2);
    let c = dx.len_s();
    if c <= EPSILON as int {
        (0, b1.position@, b2.position@, b1.rotation as int, b2.rotation as int)
    } else {
        let dir = V2s { x: muldiv_s(dx.x, SCALE as int, c), y: muldiv_s(dx.y, SCALE as int, c) };
        let w1 = pos_generalized_inverse_mass_s(b1, r1, dir);
        let w2 = pos_generalized_inverse_mass_s(b2, r2, dir);
        let dl = lagrange_update_s(
            c,
            j.position_lagrange as int,
            alpha_tilde_s(j.compliance as int, dt),
            w1 + w2,
        );
        let p = dir.scale_s(dl);
        let pos1 = if b1.motion_type is Dynamic {
            b1.position@.add_s(p.scale_s(b1.inverse_mass as int))
        } else {
            b1.position@
        };
        let rot1 = if b1.motion_type is Dynamic {
            b1.rotation + fmul_s(b1.inverse_inertia as int, r1.cross_s(p))
        } else {
            b1.rotation as int
        };
        let pos2 = if b2.motion_type is Dynamic {
            b2.position@.sub_s(p.scale_s(b2.inverse_mass as int))
        } else {
            b2.position@
        };
        let rot2 = if b2.motion_type is Dynamic {
            b2.rotation - fmul_s(b2.inverse_inertia as int, r2.cross_s(p))
        } else {
            b2.rotation as int
        };
        (dl, pos1, pos2, rot1, rot2)
    }
}

/// One angular solve against a signed angle violation `excess`: the
/// multiplier increment and the new rotations. The bodies contribute only
/// their motion type and inverse inertia; `rot1` and `rot2` are the
/// rotations the step starts from.
pub open spec fn angular_step_s(
    excess: int,
    lagrange: int,
    alpha_tilde: int,
    b1: RigidBodyState,
    b2: RigidBodyState,
    rot1: int,
    rot2: int,
) -> (int, int, int) {
    let c = abs_s(excess);
    let axis = V3s { x: 0, y: 0, z: if excess >= 0 { SCALE as int } else { -(SCALE as int) } };
    let w1 = generalized_inverse_mass_s(b1, axis);
    let w2 = generalized_inverse_mass_s(b2, axis);
    let dl = lagrange_update_s(c, lagrange, alpha_tilde, w1 + w2);
    let p = angular_impulse_s(dl, axis);
    let nrot1 = if b1.motion_type is Dynamic {
        rot1 + fmul_s(b1.inverse_inertia as int, p)
    } else {
        rot1
    };
    let nrot2 = if b2.motion_type is Dynamic {
        rot2 - fmul_s(b2.inverse_inertia as int, p)
    } else {
        rot2
    };
    (dl, nrot1, nrot2)
}

/// What the orientation lock of one substep does to the rotations.
pub open spec fn align_results_s(
    j: Joint,
    b1: RigidBodyState,
    b2: RigidBodyState,
    rot1: int,
    rot2: int,
    alpha_tilde: int,
) -> (int, int, int) {
    if j.align_orientation {
        angular_step_s(
            wrap_angle_s(rot2 - rot1),
            j.align_lagrange as int,
            alpha_tilde,
            b1,
            b2,
            rot1,
            rot2,
        )
    } else {
        (0, rot1, rot2)
    }
}

/// What the angle limit of one substep does to the rotations: nothing when
/// the relative angle lies inside the range.
pub open spec fn angle_limit_results_s(
    j: Joint,
    b1: RigidBodyState,
    b2: RigidBodyState,
    rot1: int,
    rot2: int,
    alpha_tilde: int,
) -> (int, int, int) {
    if j.angle_limit is Some {
        let da = wrap_angle_s(rot2 - rot1);
        let excess = da - clamp_s(da, j.angle_limit->0.min as int, j.angle_limit->0.max as int);
        if excess == 0 {
            (0, rot1, rot2)
        } else {
            angular_step_s(
                excess,
                j.angle_limit_lagrange as int,
                alpha_tilde,
                b1,
                b2,
                rot1,
                rot2,
            )
        }
    } else {
        (0, rot1, rot2)
    }
}

/// What the velocity damping of one substep does: the new linear and
/// angular velocities of both bodies, from the velocities the substep
/// started with.
pub open spec fn damping_results_s(j: Joint, b1: RigidBodyState, b2: RigidBodyState, dt: int)
    -> (V2s, int, V2s, int) {
    let f0 = fmul_s(j.ang_vel_damping as int, dt);
    let fa = if f0 > SCALE as int {
        SCALE as int
    } else {
        f0
    };
    let dw = fmul_s(b2.ang_vel - b1.ang_vel, fa);
    let w1n = if b1.motion_type is Dynamic {
        b1.ang_vel + dw
    } else {
        b1.ang_vel as int
    };
    let w2n = if b2.motion_type is Dynamic {
        b2.ang_vel - dw
    } else {
        b2.ang_vel as int
    };
    let f1 = fmul_s(j.lin_vel_damping as int, dt);
    let fl = if f1 > SCALE as int {
        SCALE as int
    } else {
        f1
    };
    let dv = b2.lin_vel@.sub_s(b1.lin_vel@).scale_s(fl);
    let wm1 = b1.eff_inverse_mass();
    let wm2 = b2.eff_inverse_mass();
    if wm1 + wm2 <= 0 {
        (b1.lin_vel@, w1n, b2.lin_vel@, w2n)
    } else {
        let pv = V2s {
            x: fdiv_s(dv.x, wm1 + wm2),
            y: fdiv_s(dv.y, wm1 + wm2),
        };
        (
            b1.lin_vel@.add_s(pv.scale_s(wm1)),
            w1n,
            b2.lin_vel@.sub_s(pv.scale_s(wm2)),
            w2n,
        )
    }
}

/// An opaque identifier for a body record owned by the host simulation.
#[derive(Clone, Copy, Debug, PartialEq, Eq, Hash, Structural)]
pub struct Entity(pub u64);

/// A permitted range `[min, max]` for a distance or an angle measured by a
/// joint. `min <= max` is assumed, not enforced: a violated range is the
/// caller's corruption to own.
#[derive(Clone, Copy, Debug, PartialEq, Eq, Structural)]
pub struct JointLimit {
    pub min: i64,
    pub max: i64,
}

impl JointLimit {
    /// Creates a new limit with the given range.
    pub fn new(min: i64, max: i64) -> (r: JointLimit)
        ensures
            r.min == min,
            r.max == max,
    {
        JointLimit { min, max }
    }
}

/// A joint between two bodies: anchors, compliance, damping, and the degree
/// of freedom restrictions of the concrete variant.
#[derive(Clone, Copy, Debug, PartialEq)]
pub struct Joint {
    pub entity1: Entity,
    pub entity2: Entity,
    /// Attachment point in the first body's local frame.
    pub local_anchor_1: Vec2,
    /// Attachment point in the second body's local frame.
    pub local_anchor_2: Vec2,
    /// Inverse stiffness of the joint; zero is perfectly rigid.
    pub compliance: i64,
    pub lin_vel_damping: i64,
    pub ang_vel_damping: i64,
    /// Lock the relative rotation of the bodies (the fixed variant).
    pub align_orientation: bool,
    /// A free translation axis in the first body's local frame (the
    /// prismatic variant); without one, the anchors are pinned together.
    pub free_axis: Option<Vec2>,
    /// Permitted travel along the free axis.
    pub distance_limit: Option<JointLimit>,
    /// Permitted relative rotation angle (the revolute variant).
    pub angle_limit: Option<JointLimit>,
    /// Multiplier accumulated by the positional constraint this substep.
    pub position_lagrange: i64,
    /// Multiplier accumulated by the orientation constraint this substep.
    pub align_lagrange: i64,
    /// Multiplier accumulated by the angle limit this substep.
    pub angle_limit_lagrange: i64,
}

impl Joint {
    /// Magnitude bounds under which the solver's arithmetic cannot overflow.
    pub open spec fn wf(self) -> bool {
        &&& self.local_anchor_1@.in_bounds(SCALAR_MAX as int)
        &&& self.local_anchor_2@.in_bounds(SCALAR_MAX as int)
        &&& 0 <= self.compliance <= SCALAR_MAX as int
        &&& 0 <= self.lin_vel_damping <= SCALAR_MAX as int
        &&& 0 <= self.ang_vel_damping <= SCALAR_MAX as int
        &&& -(SCALAR_MAX as int) <= self.position_lagrange <= SCALAR_MAX as int
        &&& -(SCALAR_MAX as int) <= self.align_lagrange <= SCALAR_MAX as int
        &&& -(SCALAR_MAX as int) <= self.angle_limit_lagrange <= SCALAR_MAX as int
        &&& (self.free_axis is Some ==> self.free_axis->0@.in_bounds(SCALE as int))
        &&& (self.distance_limit is Some ==> -(SCALAR_MAX as int) <= self.distance_limit->0.min
            <= self.distance_limit->0.max <= SCALAR_MAX as int)
        &&& (self.angle_limit is Some ==> -(crate::fixed::PI_FP as int) <= self.angle_limit->0.min
            <= self.angle_limit->0.max <= crate::fixed::PI_FP as int)
    }

    /// Creates a joint with a given compliance that pins the two anchor
    /// points together, with no orientation lock, free axis, or limits.
    pub fn new_with_compliance(entity1: Entity, entity2: Entity, compliance: i64) -> (r: Joint)
        ensures
            r.entity1 == entity1,
            r.entity2 == entity2,
            r.compliance == compliance,
            r.local_anchor_1@ == (V2s { x: 0, y: 0 }),
            r.local_anchor_2@ == (V2s { x: 0, y: 0 }),
            r.lin_vel_damping == 0,
            r.ang_vel_damping == 0,
            r.align_orientation == false,
            r.free_axis is None,
            r.distance_limit is None,
            r.angle_limit is None,
            r.position_lagrange == 0,
            r.align_lagrange == 0,
            r.angle_limit_lagrange == 0,
    {
        Joint {
            entity1,
            entity2,
            local_anchor_1: Vec2 { x: 0, y: 0 },
            local_anchor_2: Vec2 { x: 0, y: 0 },
            compliance,
            lin_vel_damping: 0,
            ang_vel_damping: 0,
            align_orientation: false,
            free_axis: None,
            distance_limit: None,
            angle_limit: None,
            position_lagrange: 0,
            align_lagrange: 0,
            angle_limit_lagrange: 0,
        }
    }

    /// Sets the attachment point on the first body.
    pub fn with_local_anchor_1(self, anchor: Vec2) -> (r: Joint)
        ensures
            r == (Joint { local_anchor_1: anchor, ..self }),
    {
        Joint { local_anchor_1: anchor, ..self }
    }

    /// Sets the attachment point on the second body.
    pub fn with_local_anchor_2(self, anchor: Vec2) -> (r: Joint)
        ensures
            r == (Joint { local_anchor_2: anchor, ..self }),
    {
        Joint { local_anchor_2: anchor, ..self }
    }

    /// Sets the linear velocity damping caused by the joint.
    pub fn with_lin_vel_damping(self, damping: i64) -> (r: Joint)
        ensures
            r == (Joint { lin_vel_damping: damping, ..self }),
    {
        Joint { lin_vel_damping: damping, ..self }
    }

    /// Sets the angular velocity damping caused by the joint.
    pub fn with_ang_vel_damping(self, damping: i64) -> (r: Joint)
        ensures
            r == (Joint { ang_vel_damping: damping, ..self }),
    {
        Joint { ang_vel_damping: damping, ..self }
    }

    /// Locks the relative rotation of the two bodies (the fixed variant).
    pub fn with_aligned_orientation(self) -> (r: Joint)
        ensures
            r == (Joint { align_orientation: true, ..self }),
    {
        Joint { align_orientation: true, ..self }
    }

    /// Frees translation along `axis`, given in the first body's local
    /// frame (the prismatic variant).
    pub fn with_free_axis(self, axis: Vec2) -> (r: Joint)
        ensures
            r == (Joint { free_axis: Some(axis), ..self }),
    {
        Joint { free_axis: Some(axis), ..self }
    }

    /// Limits the travel along the free axis.
    pub fn with_distance_limit(self, limit: JointLimit) -> (r: Joint)
        ensures
            r == (Joint { distance_limit: Some(limit), ..self }),
    {
        Joint { distance_limit: Some(limit), ..self }
    }

    /// Limits the relative rotation angle (the revolute variant).
    pub fn with_angle_limit(self, limit: JointLimit) -> (r: Joint)
        ensures
            r == (Joint { angle_limit: Some(limit), ..self }),
    {
        Joint { angle_limit: Some(limit), ..self }
    }

    /// The two entities constrained by the joint.
    pub fn entities(&self) -> (r: [Entity; 2])
        ensures
            r[0] == self.entity1,
            r[1] == self.entity2,
    {
        [self.entity1, self.entity2]
    }

    /// The linear velocity damping of the joint.
    pub fn damping_lin(&self) -> (r: i64)
        ensures
            r == self.lin_vel_damping,
    {
        self.lin_vel_damping
    }

    /// The angular velocity damping of the joint.
    pub fn damping_ang(&self) -> (r: i64)
        ensures
            r == self.ang_vel_damping,
    {
        self.ang_vel_damping
    }

    /// The positional correction required to keep the distance between the
    /// two anchor points between `min` and `max`: zero inside the range and
    /// for nearly coincident anchors, otherwise a vector along the offset
    /// whose magnitude is the range violation.
    pub fn limit_distance(
        &mut self,
        min: i64,
        max: i64,
        r1: Vec2,
        r2: Vec2,
        pos1: &Vec2,
        pos2: &Vec2,
    ) -> (corr: Vec2)
        requires
            -(SCALAR_MAX as int) <= min <= SCALAR_MAX as int,
            -(SCALAR_MAX as int) <= max <= SCALAR_MAX as int,
            r1@.in_bounds(40_000_000_000_000),
            r2@.in_bounds(40_000_000_000_000),
            pos1@.in_bounds(SCALAR_MAX as int),
            pos2@.in_bounds(SCALAR_MAX as int),
        ensures
            *final(self) == *old(self),
            corr@ == limit_distance_s(min as int, max as int, r1@, r2@, pos1@, pos2@),
            corr@.in_bounds(200_000_000_000_000),
            corr@.in_bounds(
                anchor_offset_s(r1@, r2@, pos1@, pos2@).len_s() + abs_s(min as int) + abs_s(
                    max as int,
                ),
            ),
    {
        let off = pos2.add(r2).sub(pos1.add(r1));
        let distance = off.length();
        if distance <= EPSILON {
            return Vec2::zero();
        }
        let target = if distance < min {
            min
        } else if distance > max {
            max
        } else {
            return Vec2::zero();
        };
        let cx = muldiv(off.x, distance - target, distance);
        let cy = muldiv(off.y, distance - target, distance);
        Vec2 { x: -cx, y: -cy }
    }

    /// The correction required to keep the scalar projection of the anchor
    /// offset onto `axis` between `min` and `max`.
    pub fn limit_distance_along_axis(
        &mut self,
        min: i64,
        max: i64,
        axis: Vec2,
        r1: Vec2,
        r2: Vec2,
        pos1: &Vec2,
        pos2: &Vec2,
    ) -> (corr: Vec2)
        requires
            -(SCALAR_MAX as int) <= min <= SCALAR_MAX as int,
            -(SCALAR_MAX as int) <= max <= SCALAR_MAX as int,
            axis@.in_bounds(2_000_000),
            r1@.in_bounds(40_000_000_000_000),
            r2@.in_bounds(40_000_000_000_000),
            pos1@.in_bounds(SCALAR_MAX as int),
            pos2@.in_bounds(SCALAR_MAX as int),
        ensures
            *final(self) == *old(self),
            corr@ == limit_distance_along_axis_s(
                min as int,
                max as int,
                axis@,
                r1@,
                r2@,
                pos1@,
                pos2@,
            ),
            corr@.in_bounds(2_000_000_000_000_000),
            corr@.in_bounds(
                2 * (abs_s(min as int) + abs_s(max as int) + abs_s(
                    anchor_offset_s(r1@, r2@, pos1@, pos2@).dot_s(axis@),
                )),
            ),
    {
        let off = pos2.add(r2).sub(pos1.add(r1));
        proof {
            let offv = anchor_offset_s(r1@, r2@, pos1@, pos2@);
            assert(offv.x * axis@.x <= 200_000_000_000_000 * SCALE && offv.x * axis@.x
                >= -200_000_000_000_000 * SCALE && offv.y * axis@.y <= 200_000_000_000_000 * SCALE
                && offv.y * axis@.y >= -200_000_000_000_000 * SCALE) by (nonlinear_arith)
                requires
                    offv.in_bounds(82_000_000_000_000),
                    axis@.in_bounds(2_000_000),
                    SCALE == 1_000_000,
            ;
            lemma_tdiv_bound(offv.x * axis@.x, SCALE as int, 200_000_000_000_000);
            lemma_tdiv_bound(offv.y * axis@.y, SCALE as int, 200_000_000_000_000);
        }
        let a = off.dot(axis);
        let target = if a < min {
            min
        } else if a > max {
            max
        } else {
            return Vec2::zero();
        };
        proof {
            let bnd: int = abs_s(min as int) + abs_s(max as int) + abs_s(
                anchor_offset_s(r1@, r2@, pos1@, pos2@).dot_s(axis@),
            );
            crate::vec::lemma_scale2_bounds(
                axis@,
                target as int - a as int,
                2_000_000,
                bnd,
                2 * bnd,
            );
            crate::vec::lemma_scale2_bounds(
                axis@,
                target as int - a as int,
                2_000_000,
                1_000_000_000_000_000,
                2_000_000_000_000_000,
            );
        }
        axis.scale(target - a)
    }

    /// The angular correction required to keep the angle between the axes
    /// `n1` and `n2`, measured about the common axis `n`, in `[alpha,
    /// beta]`. `None` means the angle already lies in the range; a returned
    /// correction is capped at `max_correction`.
    pub fn limit_angle(
        n: Vec3,
        n1: Vec3,
        n2: Vec3,
        alpha: i64,
        beta: i64,
        max_correction: i64,
    ) -> (corr: Option<Vec3>)
        requires
            n@.in_bounds(SCALE as int),
            n1@.in_bounds(SCALE as int),
            n2@.in_bounds(SCALE as int),
            -(PI_FP as int) <= alpha <= beta <= PI_FP as int,
            0 <= max_correction <= SCALAR_MAX as int,
        ensures
            corr is Some <==> limit_angle_s(
                n@,
                n1@,
                n2@,
                alpha as int,
                beta as int,
                max_correction as int,
            ) is Some,
            corr is Some ==> corr->0@ == limit_angle_s(
                n@,
                n1@,
                n2@,
                alpha as int,
                beta as int,
                max_correction as int,
            )->0,
    {
        proof {
            lemma_cross3_bounds(n1@, n2@, SCALE as int, SCALE as int, SCALE as int);
        }
        let cr = n1.cross(n2);
        proof {
            lemma_dot3_bounds(cr@, n@, 2_000_000, SCALE as int, 2_000_000);
            lemma_dot3_bounds(n1@, n2@, SCALE as int, SCALE as int, SCALE as int);
        }
        let sine = clamp(cr.dot(n), -SCALE, SCALE);
        let mut phi = asin_fp(sine);
        if n1.dot(n2) < 0 {
            phi = PI_FP - phi;
        }
        if phi > PI_FP {
            phi = phi - TWO_PI_FP;
        }
        if phi < -PI_FP {
            phi = phi + TWO_PI_FP;
        }
        if phi < alpha || phi > beta {
            let clamped = clamp(phi, alpha, beta);
            let rotated = Self::rotate_about_axis(n1, n, clamped);
            proof {
                lemma_cross3_bounds(
                    rotated@,
                    n2@,
                    100_000_000,
                    SCALE as int,
                    100_000_000,
                );
            }
            let omega = rotated.cross(n2);
            let len = omega.length();
            if len > max_correction {
                let sx = muldiv(omega.x, max_correction, len);
                let sy = muldiv(omega.y, max_correction, len);
                let sz = muldiv(omega.z, max_correction, len);
                Some(Vec3 { x: sx, y: sy, z: sz })
            } else {
                Some(omega)
            }
        } else {
            None
        }
    }

    /// `v` turned by angle `phi` about the unit axis `n`, by the axis-angle
    /// rotation formula.
    fn rotate_about_axis(v: Vec3, n: Vec3, phi: i64) -> (r: Vec3)
        requires
            v@.in_bounds(SCALE as int),
            n@.in_bounds(SCALE as int),
            -(PI_FP as int) <= phi <= PI_FP as int,
        ensures
            r@ == rotate_about_axis_s(v@, n@, phi as int),
            r@.in_bounds(100_000_000),
    {
        let c = crate::fixed::cos_fp(phi);
        let s = crate::fixed::sin_fp(phi);
        proof {
            lemma_scale3_bounds(v@, c as int, SCALE as int, 15_000_000, 15_000_000);
            lemma_cross3_bounds(n@, v@, SCALE as int, SCALE as int, SCALE as int);
            lemma_dot3_bounds(n@, v@, SCALE as int, SCALE as int, SCALE as int);
            lemma_scale3_bounds(n@.cross_s(v@), s as int, 2_000_000, 8_000_000, 16_000_000);
            lemma_fmul_abs(
                n@.dot_s(v@),
                SCALE as int - c as int,
                3_000_000,
                16_000_000,
                48_000_000,
            );
            lemma_scale3_bounds(
                n@,
                fmul_s(n@.dot_s(v@), SCALE as int - c as int),
                SCALE as int,
                48_000_000,
                48_000_000,
            );
        }
        let t1 = v.scale(c);
        let t2 = n.cross(v).scale(s);
        let t3 = n.scale(fmul(n.dot(v), SCALE - c));
        t1.add(t2).add(t3)
    }


    /// Applies the positional and angular corrections caused by the joint,
    /// then its velocity damping: the single entry point invoked once per
    /// joint per substep.
    ///
    /// The whole effect is a function of the inputs alone, stage by stage:
    /// the positional solve moves the anchors together (or inside their
    /// limits), the orientation lock and the angle limit turn the bodies,
    /// and the damping pulls the two velocities toward each other.
    pub fn constrain(
        &mut self,
        body1: &mut RigidBodyState,
        body2: &mut RigidBodyState,
        sub_dt: i64,
    )
        requires
            old(self).wf(),
            old(body1).wf(),
            old(body2).wf(),
            1_000 <= sub_dt <= SCALE as int,
        ensures
            ({
                let at = alpha_tilde_s(old(self).compliance as int, sub_dt as int);
                let ps = positional_results_s(*old(self), *old(body1), *old(body2), sub_dt as int);
                let al = align_results_s(*old(self), *old(body1), *old(body2), ps.3, ps.4, at);
                let ll = angle_limit_results_s(*old(self), *old(body1), *old(body2), al.1, al.2, at);
                let dm = damping_results_s(*old(self), *old(body1), *old(body2), sub_dt as int);
                &&& final(self).position_lagrange == old(self).position_lagrange + ps.0
                &&& final(self).align_lagrange == old(self).align_lagrange + al.0
                &&& final(self).angle_limit_lagrange == old(self).angle_limit_lagrange + ll.0
                &&& final(body1).position@ == ps.1
                &&& final(body2).position@ == ps.2
                &&& final(body1).rotation == ll.1
                &&& final(body2).rotation == ll.2
                &&& final(body1).lin_vel@ == dm.0
                &&& final(body1).ang_vel == dm.1
                &&& final(body2).lin_vel@ == dm.2
                &&& final(body2).ang_vel == dm.3
            }),
            final(self).entity1 == old(self).entity1,
            final(self).entity2 == old(self).entity2,
            final(self).local_anchor_1 == old(self).local_anchor_1,
            final(self).local_anchor_2 == old(self).local_anchor_2,
            final(self).compliance == old(self).compliance,
            final(self).lin_vel_damping == old(self).lin_vel_damping,
            final(self).ang_vel_damping == old(self).ang_vel_damping,
            final(self).align_orientation == old(self).align_orientation,
            final(self).free_axis == old(self).free_axis,
            final(self).distance_limit == old(self).distance_limit,
            final(self).angle_limit == old(self).angle_limit,
            final(body1).inverse_mass == old(body1).inverse_mass,
            final(body1).inverse_inertia == old(body1).inverse_inertia,
            final(body1).motion_type == old(body1).motion_type,
            final(body2).inverse_mass == old(body2).inverse_mass,
            final(body2).inverse_inertia == old(body2).inverse_inertia,
            final(body2).motion_type == old(body2).motion_type,
    {
        proof {
            assert(SCALE as int <= sub_dt as int * sub_dt as int <= 1_000_000 * SCALE)
                by (nonlinear_arith)
                requires
                    1_000 <= sub_dt <= SCALE as int,
            ;
            lemma_tdiv_bound(sub_dt as int * sub_dt as int, SCALE as int, 1_000_000);
        }
        let dt2 = fmul(sub_dt, sub_dt);
        proof {
            vstd::arithmetic::div_mod::lemma_div_is_ordered(
                SCALE as int,
                sub_dt as int * sub_dt as int,
                SCALE as int,
            );
            vstd::arithmetic::div_mod::lemma_div_by_self(SCALE as int);
            assert(1 <= fmul_s(sub_dt as int, sub_dt as int));
            let comp = old(self).compliance as int;
            assert(comp * SCALE <= 1_000_000_000_000_000 * dt2 as int
                && comp * SCALE >= -9_223_372_036_854_775_807 * dt2 as int
                && comp * SCALE <= 9_223_372_036_854_775_807 * dt2 as int)
                by (nonlinear_arith)
                requires
                    0 <= comp <= SCALAR_MAX as int,
                    SCALAR_MAX == 1_000_000_000,
                    SCALE == 1_000_000,
                    1 <= dt2 as int,
            ;
            lemma_tdiv_bound(comp * SCALE, dt2 as int, 1_000_000_000_000_000);
            lemma_tdiv_nonneg(comp * SCALE, dt2 as int);
        }
        let alpha_tilde = fdiv(self.compliance, dt2);
        self.positional_stage(body1, body2, sub_dt, alpha_tilde);

        // Orientation lock.
        if self.align_orientation {
            let da = wrap_angle(body2.rotation - body1.rotation);
            let dl = self.angular_step(body1, body2, da, self.align_lagrange, alpha_tilde);
            self.align_lagrange = self.align_lagrange + dl;
        }
        proof {
            assert(-6_000_000_000_000_000 <= body1.rotation <= 6_000_000_000_000_000);
            assert(-6_000_000_000_000_000 <= body2.rotation <= 6_000_000_000_000_000);
        }

        // Angle limit.
        match self.angle_limit {
            Some(l) => {
                let da = wrap_angle(body2.rotation - body1.rotation);
                let cl = clamp(da, l.min, l.max);
                let excess = da - cl;
                if excess != 0 {
                    let dl = self.angular_step(
                        body1,
                        body2,
                        excess,
                        self.angle_limit_lagrange,
                        alpha_tilde,
                    );
                    self.angle_limit_lagrange = self.angle_limit_lagrange + dl;
                }
            },
            None => {},
        }

        self.damping_stage(body1, body2, sub_dt);
    }

    /// The positional solve of one substep: measures the anchor violation,
    /// updates the position multiplier, and applies the corrective impulse
    /// to positions and rotations.
    #[verifier::rlimit(100)]
    #[verifier::spinoff_prover]
    fn positional_stage(
        &mut self,
        body1: &mut RigidBodyState,
        body2: &mut RigidBodyState,
        sub_dt: i64,
        alpha_tilde: i64,
    )
        requires
            old(self).wf(),
            old(body1).wf(),
            old(body2).wf(),
            1_000 <= sub_dt <= SCALE as int,
            alpha_tilde as int == alpha_tilde_s(old(self).compliance as int, sub_dt as int),
            0 <= alpha_tilde <= 1_000_000_000_000_000,
        ensures
            ({
                let ps = positional_results_s(*old(self), *old(body1), *old(body2), sub_dt as int);
                &&& final(self).position_lagrange == old(self).position_lagrange + ps.0
                &&& final(body1).position@ == ps.1
                &&& final(body2).position@ == ps.2
                &&& final(body1).rotation == ps.3
                &&& final(body2).rotation == ps.4
            }),
            -5_000_000_000_000_000 <= final(body1).rotation <= 5_000_000_000_000_000,
            -5_000_000_000_000_000 <= final(body2).rotation <= 5_000_000_000_000_000,
            final(self).entity1 == old(self).entity1,
            final(self).entity2 == old(self).entity2,
            final(self).local_anchor_1 == old(self).local_anchor_1,
            final(self).local_anchor_2 == old(self).local_anchor_2,
            final(self).compliance == old(self).compliance,
            final(self).lin_vel_damping == old(self).lin_vel_damping,
            final(self).ang_vel_damping == old(self).ang_vel_damping,
            final(self).align_orientation == old(self).align_orientation,
            final(self).free_axis == old(self).free_axis,
            final(self).distance_limit == old(self).distance_limit,
            final(self).angle_limit == old(self).angle_limit,
            final(self).align_lagrange == old(self).align_lagrange,
            final(self).angle_limit_lagrange == old(self).angle_limit_lagrange,
            final(body1).lin_vel == old(body1).lin_vel,
            final(body1).ang_vel == old(body1).ang_vel,
            final(body1).inverse_mass == old(body1).inverse_mass,
            final(body1).inverse_inertia == old(body1).inverse_inertia,
            final(body1).motion_type == old(body1).motion_type,
            final(body2).lin_vel == old(body2).lin_vel,
            final(body2).ang_vel == old(body2).ang_vel,
            final(body2).inverse_mass == old(body2).inverse_mass,
            final(body2).inverse_inertia == old(body2).inverse_inertia,
            final(body2).motion_type == old(body2).motion_type,
    {
        // Positional stage.
        let r1 = self.local_anchor_1.rotate(body1.rotation);
        let r2 = self.local_anchor_2.rotate(body2.rotation);
        let dx = if self.free_axis.is_some() {
            let ax = match self.free_axis {
                Some(a) => a,
                None => Vec2 { x: 0, y: 0 },
            };
            let axis_w = ax.rotate(body1.rotation);
            let perp = Vec2 { x: -axis_w.y, y: axis_w.x };
            let base = self.limit_distance_along_axis(
                0,
                0,
                perp,
                r1,
                r2,
                &body1.position,
                &body2.position,
            );
            proof {
                let offv = anchor_offset_s(r1@, r2@, body1.position@, body2.position@);
                lemma_fmul_abs(offv.x, perp@.x, 6_000_000_000, 2_000_000, 12_000_000_000);
                lemma_fmul_abs(offv.y, perp@.y, 6_000_000_000, 2_000_000, 12_000_000_000);
                lemma_fmul_abs(offv.x, axis_w@.x, 6_000_000_000, 2_000_000, 12_000_000_000);
                lemma_fmul_abs(offv.y, axis_w@.y, 6_000_000_000, 2_000_000, 12_000_000_000);
            }
            match self.distance_limit {
                Some(l) => base.add(
                    self.limit_distance_along_axis(
                        l.min,
                        l.max,
                        axis_w,
                        r1,
                        r2,
                        &body1.position,
                        &body2.position,
                    ),
                ),
                None => base,
            }
        } else {
            let dmin: i64 = match self.distance_limit {
                Some(l) => l.min,
                None => 0,
            };
            let dmax: i64 = match self.distance_limit {
                Some(l) => l.max,
                None => 0,
            };
            let corr = self.limit_distance(dmin, dmax, r1, r2, &body1.position, &body2.position);
            proof {
                let offv = anchor_offset_s(r1@, r2@, body1.position@, body2.position@);
                crate::vec::lemma_len2_bound(offv, 6_000_000_000);
            }
            corr
        };
        proof {
            assert(dx@.in_bounds(200_000_000_000));
            crate::vec::lemma_len2_bound(dx@, 200_000_000_000);
        }
        let c = dx.length();
        if c > EPSILON {
            let nx = muldiv(dx.x, SCALE, c);
            let ny = muldiv(dx.y, SCALE, c);
            let dir = Vec2 { x: nx, y: ny };
            proof {
                let ghost1 = r1@;
                let ghost2 = r2@;
                assert(ghost1.x * dir@.y <= 4_000_000_000_000_000_000 * SCALE && ghost1.x * dir@.y
                    >= -4_000_000_000_000_000_000 * SCALE && ghost1.y * dir@.x
                    <= 4_000_000_000_000_000_000 * SCALE && ghost1.y * dir@.x
                    >= -4_000_000_000_000_000_000 * SCALE && ghost2.x * dir@.y
                    <= 4_000_000_000_000_000_000 * SCALE && ghost2.x * dir@.y
                    >= -4_000_000_000_000_000_000 * SCALE && ghost2.y * dir@.x
                    <= 4_000_000_000_000_000_000 * SCALE && ghost2.y * dir@.x
                    >= -4_000_000_000_000_000_000 * SCALE) by (nonlinear_arith)
                    requires
                        ghost1.in_bounds(2_000_000_000),
                        ghost2.in_bounds(2_000_000_000),
                        dir@.in_bounds(1_000_000),
                        SCALE == 1_000_000,
                ;
                lemma_fmul_abs(ghost1.x, dir@.y, 2_000_000_000, 1_000_000, 2_000_000_000);
                lemma_fmul_abs(ghost1.y, dir@.x, 2_000_000_000, 1_000_000, 2_000_000_000);
                lemma_fmul_abs(ghost2.x, dir@.y, 2_000_000_000, 1_000_000, 2_000_000_000);
                lemma_fmul_abs(ghost2.y, dir@.x, 2_000_000_000, 1_000_000, 2_000_000_000);
            }
            let cr1 = r1.cross(dir);
            let cr2 = r2.cross(dir);
            proof {
                lemma_fmul_abs(cr1 as int, cr1 as int, 4_000_000_000, 4_000_000_000,
                    16_000_000_000_000);
                lemma_fmul_abs(cr2 as int, cr2 as int, 4_000_000_000, 4_000_000_000,
                    16_000_000_000_000);
                assert(cr1 as int * cr1 as int >= 0 && cr2 as int * cr2 as int >= 0)
                    by (nonlinear_arith);
                lemma_tdiv_nonneg(cr1 as int * cr1 as int, SCALE as int);
                lemma_tdiv_nonneg(cr2 as int * cr2 as int, SCALE as int);
            }
            let sq1 = fmul(cr1, cr1);
            let sq2 = fmul(cr2, cr2);
            proof {
                lemma_fmul_abs(old(body1).inverse_inertia as int, sq1 as int, 1_000_000_000,
                    16_000_000_000_000, 16_000_000_000_000_000);
                lemma_fmul_abs(old(body2).inverse_inertia as int, sq2 as int, 1_000_000_000,
                    16_000_000_000_000, 16_000_000_000_000_000);
                let ii1 = old(body1).inverse_inertia as int;
                let ii2 = old(body2).inverse_inertia as int;
                assert(ii1 * sq1 as int >= 0 && ii2 * sq2 as int >= 0) by (nonlinear_arith)
                    requires
                        0 <= ii1,
                        0 <= ii2,
                        0 <= sq1,
                        0 <= sq2,
                ;
                lemma_tdiv_nonneg(ii1 * sq1 as int, SCALE as int);
                lemma_tdiv_nonneg(ii2 * sq2 as int, SCALE as int);
            }
            let w1 = if body1.motion_type.is_dynamic() {
                body1.inverse_mass + fmul(body1.inverse_inertia, sq1)
            } else {
                0
            };
            let w2 = if body2.motion_type.is_dynamic() {
                body2.inverse_mass + fmul(body2.inverse_inertia, sq2)
            } else {
                0
            };
            let dl = Joint::compute_lagrange_update(
                c,
                self.position_lagrange,
                alpha_tilde,
                w1 + w2,
            );
            self.position_lagrange = self.position_lagrange + dl;
            proof {
                lemma_fmul_abs(dir@.x, dl as int, 1_000_000, 1_000_000_000, 1_000_000_000);
                lemma_fmul_abs(dir@.y, dl as int, 1_000_000, 1_000_000_000, 1_000_000_000);
            }
            let p = dir.scale(dl);
            if body1.motion_type.is_dynamic() {
                proof {
                    lemma_fmul_abs(p@.x, old(body1).inverse_mass as int, 1_000_000_000,
                        1_000_000_000, 1_000_000_000_000);
                    lemma_fmul_abs(p@.y, old(body1).inverse_mass as int, 1_000_000_000,
                        1_000_000_000, 1_000_000_000_000);
                    lemma_fmul_abs(r1@.x, p@.y, 2_000_000_000, 1_000_000_000,
                        2_000_000_000_000);
                    lemma_fmul_abs(r1@.y, p@.x, 2_000_000_000, 1_000_000_000,
                        2_000_000_000_000);
                    lemma_fmul_abs(old(body1).inverse_inertia as int, r1@.cross_s(p@),
                        1_000_000_000, 4_000_000_000_000, 4_000_000_000_000_000);
                }
                body1.position = body1.position.add(p.scale(body1.inverse_mass));
                body1.rotation = body1.rotation + fmul(body1.inverse_inertia, r1.cross(p));
                proof {
                    assert(-5_000_000_000_000_000 <= body1.rotation <= 5_000_000_000_000_000);
                }
            }
            if body2.motion_type.is_dynamic() {
                proof {
                    lemma_fmul_abs(p@.x, old(body2).inverse_mass as int, 1_000_000_000,
                        1_000_000_000, 1_000_000_000_000);
                    lemma_fmul_abs(p@.y, old(body2).inverse_mass as int, 1_000_000_000,
                        1_000_000_000, 1_000_000_000_000);
                    lemma_fmul_abs(r2@.x, p@.y, 2_000_000_000, 1_000_000_000,
                        2_000_000_000_000);
                    lemma_fmul_abs(r2@.y, p@.x, 2_000_000_000, 1_000_000_000,
                        2_000_000_000_000);
                    lemma_fmul_abs(old(body2).inverse_inertia as int, r2@.cross_s(p@),
                        1_000_000_000, 4_000_000_000_000, 4_000_000_000_000_000);
                }
                body2.position = body2.position.sub(p.scale(body2.inverse_mass));
                body2.rotation = body2.rotation - fmul(body2.inverse_inertia, r2.cross(p));
                proof {
                    assert(-5_000_000_000_000_000 <= body2.rotation <= 5_000_000_000_000_000);
                }
            }
        }

        proof {
            assert(-5_000_000_000_000_000 <= body1.rotation <= 5_000_000_000_000_000);
            assert(-5_000_000_000_000_000 <= body2.rotation <= 5_000_000_000_000_000);
        }
    }

    /// The velocity damping of one substep: pulls the two angular and
    /// linear velocities toward each other by the damping factors, the
    /// linear part weighted by the inverse masses.
    #[verifier::rlimit(100)]
    #[verifier::spinoff_prover]
    fn damping_stage(&self, body1: &mut RigidBodyState, body2: &mut RigidBodyState, sub_dt: i64)
        requires
            0 <= self.ang_vel_damping <= SCALAR_MAX as int,
            0 <= self.lin_vel_damping <= SCALAR_MAX as int,
            -(SCALAR_MAX as int) <= old(body1).ang_vel <= SCALAR_MAX as int,
            -(SCALAR_MAX as int) <= old(body2).ang_vel <= SCALAR_MAX as int,
            old(body1).lin_vel@.in_bounds(SCALAR_MAX as int),
            old(body2).lin_vel@.in_bounds(SCALAR_MAX as int),
            0 <= old(body1).inverse_mass <= SCALAR_MAX as int,
            0 <= old(body2).inverse_mass <= SCALAR_MAX as int,
            1_000 <= sub_dt <= SCALE as int,
        ensures
            ({
                let dm = damping_results_s(*self, *old(body1), *old(body2), sub_dt as int);
                &&& final(body1).lin_vel@ == dm.0
                &&& final(body1).ang_vel == dm.1
                &&& final(body2).lin_vel@ == dm.2
                &&& final(body2).ang_vel == dm.3
            }),
            final(body1).position == old(body1).position,
            final(body1).rotation == old(body1).rotation,
            final(body1).inverse_mass == old(body1).inverse_mass,
            final(body1).inverse_inertia == old(body1).inverse_inertia,
            final(body1).motion_type == old(body1).motion_type,
            final(body2).position == old(body2).position,
            final(body2).rotation == old(body2).rotation,
            final(body2).inverse_mass == old(body2).inverse_mass,
            final(body2).inverse_inertia == old(body2).inverse_inertia,
            final(body2).motion_type == old(body2).motion_type,
    {
        // Velocity damping.
        proof {
            lemma_fmul_abs(self.ang_vel_damping as int, sub_dt as int, 1_000_000_000,
                1_000_000, 1_000_000_000);
        }
        let f0 = fmul(self.ang_vel_damping, sub_dt);
        let fa = if f0 > SCALE {
            SCALE
        } else {
            f0
        };
        proof {
            lemma_fmul_abs(old(body2).ang_vel - old(body1).ang_vel, fa as int, 2_000_000_000,
                1_000_000, 2_000_000_000);
        }
        let dw = fmul(body2.ang_vel - body1.ang_vel, fa);
        if body1.motion_type.is_dynamic() {
            body1.ang_vel = body1.ang_vel + dw;
        }
        if body2.motion_type.is_dynamic() {
            body2.ang_vel = body2.ang_vel - dw;
        }
        proof {
            lemma_fmul_abs(self.lin_vel_damping as int, sub_dt as int, 1_000_000_000,
                1_000_000, 1_000_000_000);
            let dvv = old(body2).lin_vel@.sub_s(old(body1).lin_vel@);
            lemma_fmul_abs(dvv.x, 1_000_000, 2_000_000_000, 1_000_000, 2_000_000_000);
            lemma_fmul_abs(dvv.y, 1_000_000, 2_000_000_000, 1_000_000, 2_000_000_000);
        }
        let f1 = fmul(self.lin_vel_damping, sub_dt);
        let fl = if f1 > SCALE {
            SCALE
        } else {
            f1
        };
        proof {
            let dvv = old(body2).lin_vel@.sub_s(old(body1).lin_vel@);
            lemma_fmul_abs(dvv.x, fl as int, 2_000_000_000, 1_000_000, 2_000_000_000);
            lemma_fmul_abs(dvv.y, fl as int, 2_000_000_000, 1_000_000, 2_000_000_000);
        }
        let dv = body2.lin_vel.sub(body1.lin_vel).scale(fl);
        let wm1 = if body1.motion_type.is_dynamic() {
            body1.inverse_mass
        } else {
            0
        };
        let wm2 = if body2.motion_type.is_dynamic() {
            body2.inverse_mass
        } else {
            0
        };
        if wm1 + wm2 > 0 {
            proof {
                assert(dv@.x * SCALE <= 2_000_000_000_000_000 * (wm1 + wm2) && dv@.x * SCALE
                    >= -2_000_000_000_000_000 * (wm1 + wm2) && dv@.y * SCALE
                    <= 2_000_000_000_000_000 * (wm1 + wm2) && dv@.y * SCALE
                    >= -2_000_000_000_000_000 * (wm1 + wm2) && dv@.x * SCALE
                    <= 9_223_372_036_854_775_807 * (wm1 + wm2) && dv@.x * SCALE
                    >= -9_223_372_036_854_775_807 * (wm1 + wm2) && dv@.y * SCALE
                    <= 9_223_372_036_854_775_807 * (wm1 + wm2) && dv@.y * SCALE
                    >= -9_223_372_036_854_775_807 * (wm1 + wm2)) by (nonlinear_arith)
                    requires
                        dv@.in_bounds(2_000_000_000),
                        1 <= wm1 + wm2,
                        SCALE == 1_000_000,
                ;
                lemma_tdiv_bound(dv@.x * SCALE, wm1 as int + wm2 as int, 2_000_000_000_000_000);
                lemma_tdiv_bound(dv@.y * SCALE, wm1 as int + wm2 as int, 2_000_000_000_000_000);
            }
            let pvx = fdiv(dv.x, wm1 + wm2);
            let pvy = fdiv(dv.y, wm1 + wm2);
            let pv = Vec2 { x: pvx, y: pvy };
            proof {
                lemma_fmul_abs(pv@.x, wm1 as int, 2_000_000_000_000_000, 1_000_000_000,
                    2_000_000_000_000_000_000);
                lemma_fmul_abs(pv@.y, wm1 as int, 2_000_000_000_000_000, 1_000_000_000,
                    2_000_000_000_000_000_000);
                lemma_fmul_abs(pv@.x, wm2 as int, 2_000_000_000_000_000, 1_000_000_000,
                    2_000_000_000_000_000_000);
                lemma_fmul_abs(pv@.y, wm2 as int, 2_000_000_000_000_000, 1_000_000_000,
                    2_000_000_000_000_000_000);
            }
            body1.lin_vel = body1.lin_vel.add(pv.scale(wm1));
            body2.lin_vel = body2.lin_vel.sub(pv.scale(wm2));
        }
    }

    /// The XPBD multiplier increment for a constraint violation of
    /// magnitude `c`: `(-c - alpha_tilde * lagrange)` divided by the total
    /// generalized inverse mass plus `alpha_tilde`; zero when nothing can
    /// move, and clamped into the representable scalar range.
    pub fn compute_lagrange_update(c: i64, lagrange: i64, alpha_tilde: i64, w_sum: i64) -> (dl:
        i64)
        requires
            0 <= c <= 1_000_000_000_000,
            -(SCALAR_MAX as int) <= lagrange <= SCALAR_MAX as int,
            0 <= alpha_tilde <= 1_000_000_000_000_000,
            0 <= w_sum <= 4_000_000_000_000_000_000,
        ensures
            dl == lagrange_update_s(c as int, lagrange as int, alpha_tilde as int, w_sum as int),
            -(SCALAR_MAX as int) <= dl <= SCALAR_MAX as int,
    {
        let denom: i64 = w_sum + alpha_tilde;
        if denom <= 0 {
            return 0;
        }
        proof {
            assert(alpha_tilde as int * lagrange as int <= 1_000_000_000_000_000_000_000_000
                && alpha_tilde as int * lagrange as int >= -1_000_000_000_000_000_000_000_000)
                by (nonlinear_arith)
                requires
                    0 <= alpha_tilde <= 1_000_000_000_000_000,
                    -1_000_000_000 <= lagrange <= 1_000_000_000,
            ;
            lemma_tdiv_bound(
                alpha_tilde as int * lagrange as int,
                SCALE as int,
                1_000_000_000_000_000_000,
            );
        }
        let num: i128 = c as i128 + (alpha_tilde as i128 * lagrange as i128) / (SCALE as i128);
        let q: i128 = (num * SCALE as i128) / (denom as i128);
        let neg: i128 = -q;
        if neg < -(SCALAR_MAX as i128) {
            -SCALAR_MAX
        } else if neg > SCALAR_MAX as i128 {
            SCALAR_MAX
        } else {
            neg as i64
        }
    }

    /// One angular solve against a signed angle violation `excess`: updates
    /// both rotations through the angular correction and returns the
    /// multiplier increment.
    fn angular_step(
        &self,
        body1: &mut RigidBodyState,
        body2: &mut RigidBodyState,
        excess: i64,
        lagrange: i64,
        alpha_tilde: i64,
    ) -> (dl: i64)
        requires
            -10_000_000 <= excess <= 10_000_000,
            -(SCALAR_MAX as int) <= lagrange <= SCALAR_MAX as int,
            0 <= alpha_tilde <= 1_000_000_000_000_000,
            0 <= old(body1).inverse_inertia <= SCALAR_MAX as int,
            0 <= old(body2).inverse_inertia <= SCALAR_MAX as int,
            -4_000_000_000_000_000_000 <= old(body1).rotation <= 4_000_000_000_000_000_000,
            -4_000_000_000_000_000_000 <= old(body2).rotation <= 4_000_000_000_000_000_000,
        ensures
            ({
                let st = angular_step_s(
                    excess as int,
                    lagrange as int,
                    alpha_tilde as int,
                    *old(body1),
                    *old(body2),
                    old(body1).rotation as int,
                    old(body2).rotation as int,
                );
                dl == st.0 && final(body1).rotation == st.1 && final(body2).rotation == st.2
            }),
            -(SCALAR_MAX as int) <= dl <= SCALAR_MAX as int,
            -1_000_000_000_000 <= final(body1).rotation - old(body1).rotation
                <= 1_000_000_000_000,
            -1_000_000_000_000 <= final(body2).rotation - old(body2).rotation
                <= 1_000_000_000_000,
            final(body1).position == old(body1).position,
            final(body1).lin_vel == old(body1).lin_vel,
            final(body1).ang_vel == old(body1).ang_vel,
            final(body1).inverse_mass == old(body1).inverse_mass,
            final(body1).inverse_inertia == old(body1).inverse_inertia,
            final(body1).motion_type == old(body1).motion_type,
            final(body2).position == old(body2).position,
            final(body2).lin_vel == old(body2).lin_vel,
            final(body2).ang_vel == old(body2).ang_vel,
            final(body2).inverse_mass == old(body2).inverse_mass,
            final(body2).inverse_inertia == old(body2).inverse_inertia,
            final(body2).motion_type == old(body2).motion_type,
    {
        let c = if excess >= 0 {
            excess
        } else {
            -excess
        };
        let axis = Vec3 {
            x: 0,
            y: 0,
            z: if excess >= 0 {
                SCALE
            } else {
                -SCALE
            },
        };
        let w1 = self.compute_generalized_inverse_mass(body1, axis);
        let w2 = self.compute_generalized_inverse_mass(body2, axis);
        let dl = Joint::compute_lagrange_update(c, lagrange, alpha_tilde, w1 + w2);
        let p = self.apply_angular_correction(body1, body2, dl, axis);
        proof {
            lemma_fmul_abs(old(body1).inverse_inertia as int, p as int, SCALAR_MAX as int,
                SCALAR_MAX as int, 1_000_000_000_000);
            lemma_fmul_abs(old(body2).inverse_inertia as int, p as int, SCALAR_MAX as int,
                SCALAR_MAX as int, 1_000_000_000_000);
        }
        dl
    }
}

impl AngularConstraint for Joint {
    fn apply_angular_correction(
        &self,
        body1: &mut RigidBodyState,
        body2: &mut RigidBodyState,
        delta_lagrange: i64,
        axis: Vec3,
    ) -> (p: i64) {
        if delta_lagrange >= -EPSILON {
            proof {
                assert(delta_rot_s(old(body1).inverse_inertia as int, 0) == 0);
                assert(delta_rot_s(old(body2).inverse_inertia as int, 0) == 0);
            }
            return 0;
        }
        proof {
            assert((-delta_lagrange as int) * axis@.z <= 1_000_000_000 * SCALE && (
            -delta_lagrange as int) * axis@.z >= -1_000_000_000 * SCALE) by (nonlinear_arith)
                requires
                    -(SCALAR_MAX as int) <= delta_lagrange <= SCALAR_MAX as int,
                    -(SCALE as int) <= axis@.z <= SCALE as int,
                    SCALAR_MAX == 1_000_000_000,
            ;
            lemma_tdiv_bound((-delta_lagrange as int) * axis@.z, SCALE as int, 1_000_000_000);
        }
        let p = fmul(-delta_lagrange, axis.z);
        if body1.motion_type.is_dynamic() {
            proof {
                let ii = old(body1).inverse_inertia as int;
                assert(ii * p as int <= 1_000_000_000_000_000_000 * SCALE && ii * p as int
                    >= -1_000_000_000_000_000_000 * SCALE) by (nonlinear_arith)
                    requires
                        0 <= ii <= SCALAR_MAX as int,
                        -(SCALAR_MAX as int) <= p <= SCALAR_MAX as int,
                ;
                lemma_tdiv_bound(ii * p as int, SCALE as int, 1_000_000_000_000_000_000);
            }
            let d = fmul(body1.inverse_inertia, p);
            body1.rotation = body1.rotation + d;
        }
        if body2.motion_type.is_dynamic() {
            proof {
                let ii = old(body2).inverse_inertia as int;
                assert(ii * p as int <= 1_000_000_000_000_000_000 * SCALE && ii * p as int
                    >= -1_000_000_000_000_000_000 * SCALE) by (nonlinear_arith)
                    requires
                        0 <= ii <= SCALAR_MAX as int,
                        -(SCALAR_MAX as int) <= p <= SCALAR_MAX as int,
                ;
                lemma_tdiv_bound(ii * p as int, SCALE as int, 1_000_000_000_000_000_000);
            }
            let d = fmul(body2.inverse_inertia, p);
            body2.rotation = body2.rotation - d;
        }
        p
    }

    fn compute_generalized_inverse_mass(&self, body: &RigidBodyState, axis: Vec3) -> (w: i64) {
        if body.motion_type.is_dynamic() {
            proof {
                assert(axis@.x * axis@.x <= 1_000_000 * SCALE && axis@.x * axis@.x >= 0 && axis@.y
                    * axis@.y <= 1_000_000 * SCALE && axis@.y * axis@.y >= 0 && axis@.z * axis@.z
                    <= 1_000_000 * SCALE && axis@.z * axis@.z >= 0) by (nonlinear_arith)
                    requires
                        axis@.in_bounds(SCALE as int),
                ;
                lemma_tdiv_bound(axis@.x * axis@.x, SCALE as int, 1_000_000);
                lemma_tdiv_bound(axis@.y * axis@.y, SCALE as int, 1_000_000);
                lemma_tdiv_bound(axis@.z * axis@.z, SCALE as int, 1_000_000);
                lemma_tdiv_nonneg(axis@.x * axis@.x, SCALE as int);
                lemma_tdiv_nonneg(axis@.y * axis@.y, SCALE as int);
                lemma_tdiv_nonneg(axis@.z * axis@.z, SCALE as int);
            }
            let d = axis.dot(axis);
            proof {
                assert(body.inverse_inertia as int * d as int <= 3_000_000_000_000 * SCALE)
                    by (nonlinear_arith)
                    requires
                        0 <= body.inverse_inertia <= SCALAR_MAX as int,
                        0 <= d <= 3_000_000,
                ;
                lemma_fmul_nn(body.inverse_inertia as int, d as int, 3_000_000_000_000);
            }
            fmul(body.inverse_inertia, d)
        } else {
            0
        }
    }

    fn get_delta_rot(rot: i64, inv_inertia: i64, p: i64) -> (r: i64) {
        proof {
            assert(inv_inertia as int * p as int <= 1_000_000_000_000_000_000 * SCALE && inv_inertia
                as int * p as int >= -1_000_000_000_000_000_000 * SCALE) by (nonlinear_arith)
                requires
                    0 <= inv_inertia <= SCALAR_MAX as int,
                    -(SCALAR_MAX as int) <= p <= SCALAR_MAX as int,
            ;
            lemma_tdiv_bound(inv_inertia as int * p as int, SCALE as int, 1_000_000_000_000_000_000);
        }
        fmul(inv_inertia, p)
    }

    fn compute_torque(&self, lagrange: i64, axis: Vec3, dt: i64) -> (t: i64) {
        proof {
            assert(SCALE as int <= dt as int * dt as int <= 1_000_000 * SCALE) by (nonlinear_arith)
                requires
                    1_000 <= dt <= SCALE as int,
            ;
            lemma_tdiv_bound(dt as int * dt as int, SCALE as int, 1_000_000);
            vstd::arithmetic::div_mod::lemma_div_is_ordered(
                SCALE as int,
                dt as int * dt as int,
                SCALE as int,
            );
            vstd::arithmetic::div_mod::lemma_div_by_self(SCALE as int);
            assert(fmul_s(dt as int, dt as int) >= 1);
            assert(lagrange as int * axis@.z <= 1_000_000_000_000 * SCALE && lagrange as int
                * axis@.z >= -1_000_000_000_000 * SCALE) by (nonlinear_arith)
                requires
                    -(SCALAR_MAX as int) <= lagrange <= SCALAR_MAX as int,
                    -(SCALE as int) <= axis@.z <= SCALE as int,
            ;
            lemma_tdiv_bound(lagrange as int * axis@.z, SCALE as int, 1_000_000_000_000);
        }
        let dt2 = fmul(dt, dt);
        let num = fmul(lagrange, axis.z);
        proof {
            assert(num as int * SCALE <= 9_223_372_036_854_775_807 * dt2 as int && num as int
                * SCALE >= -9_223_372_036_854_775_807 * dt2 as int) by (nonlinear_arith)
                requires
                    -1_000_000_000_000 <= num as int <= 1_000_000_000_000,
                    1 <= dt2 as int,
                    SCALE == 1_000_000,
            ;
        }
        fdiv(num, dt2)
    }
}

/// Idempotence at rest: a joint whose positional violation measures zero,
/// whose relative angle satisfies the orientation lock and the angle
/// limit, and whose multipliers start at zero with zero compliance, leaves
/// both positions and rotations exactly unchanged.
pub proof fn lemma_constrain_idempotent_at_rest(
    j: Joint,
    b1: RigidBodyState,
    b2: RigidBodyState,
    dt: int,
)
    requires
        j.wf(),
        b1.wf(),
        b2.wf(),
        1_000 <= dt <= SCALE as int,
        j.compliance == 0,
        j.position_lagrange == 0,
        j.align_lagrange == 0,
        j.angle_limit_lagrange == 0,
        delta_x_s(j, b1, b2) == (V2s { x: 0, y: 0 }),
        j.align_orientation ==> wrap_angle_s(b2.rotation - b1.rotation) == 0,
        j.angle_limit is Some ==> clamp_s(
            wrap_angle_s(b2.rotation - b1.rotation),
            j.angle_limit->0.min as int,
            j.angle_limit->0.max as int,
        ) == wrap_angle_s(b2.rotation - b1.rotation),
    ensures
        ({
            let at = alpha_tilde_s(j.compliance as int, dt);
            let ps = positional_results_s(j, b1, b2, dt);
            let al = align_results_s(j, b1, b2, ps.3, ps.4, at);
            let ll = angle_limit_results_s(j, b1, b2, al.1, al.2, at);
            &&& ps.0 == 0
            &&& ps.1 == b1.position@
            &&& ps.2 == b2.position@
            &&& ps.3 == b1.rotation as int
            &&& ps.4 == b2.rotation as int
            &&& al.0 == 0
            &&& ll.0 == 0
            &&& ll.1 == b1.rotation as int
            &&& ll.2 == b2.rotation as int
        }),
{
    let at = alpha_tilde_s(j.compliance as int, dt);
    let dt2 = fmul_s(dt, dt);
    assert(SCALE as int <= dt * dt) by (nonlinear_arith)
        requires
            1_000 <= dt,
    ;
    vstd::arithmetic::div_mod::lemma_div_is_ordered(SCALE as int, dt * dt, SCALE as int);
    vstd::arithmetic::div_mod::lemma_div_by_self(SCALE as int);
    assert(dt2 >= 1);
    assert(0 * (SCALE as int) == 0) by (nonlinear_arith);
    vstd::arithmetic::div_mod::lemma_div_of0(dt2);
    assert(at == 0);
    let dx = delta_x_s(j, b1, b2);
    assert(dx.len_sq_raw() == 0);
    lemma_sqrt_floor_unique_zero();
    assert(dx.len_s() == 0);
    let ps = positional_results_s(j, b1, b2, dt);
    assert(ps.0 == 0 && ps.1 == b1.position@ && ps.2 == b2.position@ && ps.3 == b1.rotation as int
        && ps.4 == b2.rotation as int);
    lemma_angular_step_inert(j.align_lagrange as int, b1, b2, b1.rotation as int,
        b2.rotation as int);
    lemma_angular_step_inert(j.angle_limit_lagrange as int, b1, b2, b1.rotation as int,
        b2.rotation as int);
}

/// An angular step against a zero violation with a zero multiplier and
/// zero time-scaled compliance changes nothing.
proof fn lemma_angular_step_inert(
    lagrange: int,
    b1: RigidBodyState,
    b2: RigidBodyState,
    rot1: int,
    rot2: int,
)
    requires
        lagrange == 0,
    ensures
        angular_step_s(0, lagrange, 0, b1, b2, rot1, rot2) == (0int, rot1, rot2),
{
    let axis = V3s { x: 0, y: 0, z: SCALE as int };
    let w1 = generalized_inverse_mass_s(b1, axis);
    let w2 = generalized_inverse_mass_s(b2, axis);
    let denom = w1 + w2 + 0;
    assert(fmul_s(0, 0) == tdiv(0, SCALE as int));
    assert(0 * 0 == 0) by (nonlinear_arith);
    vstd::arithmetic::div_mod::lemma_div_of0(SCALE as int);
    assert(fmul_s(0, 0) == 0);
    if denom > 0 {
        assert(0 * (SCALE as int) == 0) by (nonlinear_arith);
        vstd::arithmetic::div_mod::lemma_div_of0(denom);
        assert(lagrange_update_s(0, 0, 0, w1 + w2) == 0);
    }
    let dl = lagrange_update_s(0, 0, 0, w1 + w2);
    assert(dl == 0);
    assert(angular_impulse_s(0, axis) == 0);
    assert(fmul_s(b1.inverse_inertia as int, 0) == 0) by {
        assert(b1.inverse_inertia as int * 0 == 0) by (nonlinear_arith);
        vstd::arithmetic::div_mod::lemma_div_of0(SCALE as int);
    }
    assert(fmul_s(b2.inverse_inertia as int, 0) == 0) by {
        assert(b2.inverse_inertia as int * 0 == 0) by (nonlinear_arith);
        vstd::arithmetic::div_mod::lemma_div_of0(SCALE as int);
    }
}

/// The square root of zero is zero.
proof fn lemma_sqrt_floor_unique_zero()
    ensures
        crate::fixed::sqrt_floor(0) == 0,
{
    crate::fixed::lemma_sqrt_floor_unique(0, 0);
}

/// Determinism: every output of `constrain` is pinned by its contract to
/// spec-level functions of the joint, the two body states and the substep
/// duration alone, so identical inputs in an identical processing order
/// give bit-identical results, run after run.
pub proof fn lemma_constrain_deterministic(
    ja: Joint,
    jb: Joint,
    b1a: RigidBodyState,
    b1b: RigidBodyState,
    b2a: RigidBodyState,
    b2b: RigidBodyState,
    dta: int,
    dtb: int,
)
    requires
        ja == jb,
        b1a == b1b,
        b2a == b2b,
        dta == dtb,
    ensures
        positional_results_s(ja, b1a, b2a, dta) == positional_results_s(jb, b1b, b2b, dtb),
        ({
            let at = alpha_tilde_s(ja.compliance as int, dta);
            let ps = positional_results_s(ja, b1a, b2a, dta);
            align_results_s(ja, b1a, b2a, ps.3, ps.4, at) == align_results_s(
                jb,
                b1b,
                b2b,
                ps.3,
                ps.4,
                at,
            )
        }),
        ({
            let at = alpha_tilde_s(ja.compliance as int, dta);
            let ps = positional_results_s(ja, b1a, b2a, dta);
            let al = align_results_s(ja, b1a, b2a, ps.3, ps.4, at);
            angle_limit_results_s(ja, b1a, b2a, al.1, al.2, at) == angle_limit_results_s(
                jb,
                b1b,
                b2b,
                al.1,
                al.2,
                at,
            )
        }),
        damping_results_s(ja, b1a, b2a, dta) == damping_results_s(jb, b1b, b2b, dtb),
{
}

} // verus!

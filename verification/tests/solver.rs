//! End-to-end tests of the per-substep joint solve and the configuration
//! resources.

use xpbd_core::body::{MotionType, RigidBodyState};
use xpbd_core::joints::{Entity, Joint};
use xpbd_core::resources::{
    DeltaTime, Gravity, NumPosIters, NumSubsteps, PhysicsTimestep, SubDeltaTime,
};
use xpbd_core::vec::Vec2;

fn body_at(x: i64, y: i64, inverse_mass: i64, inverse_inertia: i64) -> RigidBodyState {
    RigidBodyState {
        position: Vec2 { x, y },
        rotation: 0,
        lin_vel: Vec2 { x: 0, y: 0 },
        ang_vel: 0,
        inverse_mass,
        inverse_inertia,
        motion_type: MotionType::Dynamic,
    }
}

#[test]
fn constrain_pulls_pinned_anchors_together() {
    // Two unit-mass bodies one unit apart, pinned rigidly at their
    // centers: one solve moves each halfway to the midpoint.
    let mut j = Joint::new_with_compliance(Entity(1), Entity(2), 0);
    let mut b1 = body_at(0, 0, 1_000_000, 0);
    let mut b2 = body_at(1_000_000, 0, 1_000_000, 0);
    j.constrain(&mut b1, &mut b2, 16_667);
    assert_eq!(b1.position, Vec2 { x: 500_000, y: 0 });
    assert_eq!(b2.position, Vec2 { x: 500_000, y: 0 });
    assert_eq!(j.position_lagrange, -500_000);
}

#[test]
fn constrain_aligns_locked_orientations() {
    // Coincident bodies with unit inverse inertia and a one-radian
    // relative twist under an orientation lock meet in the middle.
    let mut j = Joint::new_with_compliance(Entity(1), Entity(2), 0).with_aligned_orientation();
    let mut b1 = body_at(0, 0, 0, 1_000_000);
    let mut b2 = body_at(0, 0, 0, 1_000_000);
    b2.rotation = 1_000_000;
    j.constrain(&mut b1, &mut b2, 16_667);
    assert_eq!(b1.rotation, 500_000);
    assert_eq!(b2.rotation, 500_000);
}

#[test]
fn constrain_at_rest_changes_nothing() {
    // A rigid pin already exactly satisfied: a further solve applies a
    // zero-magnitude correction.
    let mut j = Joint::new_with_compliance(Entity(1), Entity(2), 0);
    let mut b1 = body_at(250_000, -125_000, 1_000_000, 1_000_000);
    let mut b2 = body_at(250_000, -125_000, 1_000_000, 1_000_000);
    let before1 = b1;
    let before2 = b2;
    j.constrain(&mut b1, &mut b2, 16_667);
    assert_eq!(b1, before1);
    assert_eq!(b2, before2);
    assert_eq!(j.position_lagrange, 0);
}

#[test]
fn constrain_is_deterministic() {
    let make = || {
        let j = Joint::new_with_compliance(Entity(1), Entity(2), 125)
            .with_local_anchor_1(Vec2 { x: 100_000, y: 0 })
            .with_aligned_orientation()
            .with_lin_vel_damping(500_000)
            .with_ang_vel_damping(500_000);
        let mut b1 = body_at(0, 0, 1_000_000, 2_000_000);
        let mut b2 = body_at(900_000, -300_000, 500_000, 1_000_000);
        b1.rotation = 250_000;
        b2.rotation = -750_000;
        b1.lin_vel = Vec2 { x: 10_000, y: -20_000 };
        b2.lin_vel = Vec2 { x: -5_000, y: 15_000 };
        b1.ang_vel = 30_000;
        b2.ang_vel = -40_000;
        (j, b1, b2)
    };
    let (mut ja, mut a1, mut a2) = make();
    let (mut jb, mut c1, mut c2) = make();
    for _ in 0..4 {
        ja.constrain(&mut a1, &mut a2, 16_667);
        jb.constrain(&mut c1, &mut c2, 16_667);
    }
    assert_eq!(a1, c1);
    assert_eq!(a2, c2);
    assert_eq!(ja.position_lagrange, jb.position_lagrange);
    assert_eq!(ja.align_lagrange, jb.align_lagrange);
}

#[test]
fn constrain_damps_velocities_toward_each_other() {
    // Full damping factor (damping * dt clamped to one): angular
    // velocities are exchanged toward equality, linear velocities meet at
    // the inverse-mass-weighted mean.
    let mut j = Joint::new_with_compliance(Entity(1), Entity(2), 0)
        .with_lin_vel_damping(1_000_000_000)
        .with_ang_vel_damping(1_000_000_000);
    let mut b1 = body_at(0, 0, 1_000_000, 1_000_000);
    let mut b2 = body_at(0, 0, 1_000_000, 1_000_000);
    b1.lin_vel = Vec2 { x: 1_000_000, y: 0 };
    b2.lin_vel = Vec2 { x: -1_000_000, y: 0 };
    b1.ang_vel = 200_000;
    b2.ang_vel = -600_000;
    j.constrain(&mut b1, &mut b2, 16_667);
    // delta_omega = (-600000 - 200000) * 1 = -800000, applied to both.
    assert_eq!(b1.ang_vel, -600_000);
    assert_eq!(b2.ang_vel, 200_000);
    // delta_v = (-2.0, 0); p = delta_v / (1 + 1) = (-1.0, 0).
    assert_eq!(b1.lin_vel, Vec2 { x: 0, y: 0 });
    assert_eq!(b2.lin_vel, Vec2 { x: 0, y: 0 });
}

#[test]
fn timestep_default_is_sixty_hertz() {
    assert_eq!(PhysicsTimestep::default(), PhysicsTimestep::Fixed(16_667));
}

#[test]
fn timestep_variants_hold_their_steps() {
    let f = PhysicsTimestep::Fixed(20_000);
    let v = PhysicsTimestep::Variable { max_dt: 16_667 };
    assert!(matches!(f, PhysicsTimestep::Fixed(20_000)));
    assert!(matches!(v, PhysicsTimestep::Variable { max_dt: 16_667 }));
}

#[test]
fn delta_time_defaults_are_zero() {
    assert_eq!(DeltaTime::default().0, 0);
    assert_eq!(SubDeltaTime::default().0, 0);
}

#[test]
fn substep_and_iteration_defaults() {
    assert_eq!(NumSubsteps::default().0, 8);
    assert_eq!(NumPosIters::default().0, 4);
}

#[test]
fn gravity_default_points_down() {
    assert_eq!(Gravity::default().0, Vec2 { x: 0, y: -9_810_000 });
    assert_eq!(Gravity::zero().0, Vec2 { x: 0, y: 0 });
}

#[test]
fn constrain_keeps_slider_on_its_axis() {
    // A prismatic joint freeing the x axis: the off-axis part of the
    // offset is removed, the on-axis part is left alone.
    let mut j = Joint::new_with_compliance(Entity(1), Entity(2), 0)
        .with_free_axis(Vec2 { x: 1_000_000, y: 0 });
    let mut b1 = body_at(0, 0, 1_000_000, 0);
    let mut b2 = body_at(500_000, 300_000, 1_000_000, 0);
    j.constrain(&mut b1, &mut b2, 16_667);
    assert_eq!(b1.position, Vec2 { x: 0, y: 150_000 });
    assert_eq!(b2.position, Vec2 { x: 500_000, y: 150_000 });
}

#[test]
fn constrain_enforces_distance_limit() {
    // A pin with a distance range [1, 2], three units apart: the solve
    // brings the separation back to the upper bound.
    let mut j = Joint::new_with_compliance(Entity(1), Entity(2), 0)
        .with_distance_limit(xpbd_core::joints::JointLimit::new(1_000_000, 2_000_000));
    let mut b1 = body_at(0, 0, 1_000_000, 0);
    let mut b2 = body_at(3_000_000, 0, 1_000_000, 0);
    j.constrain(&mut b1, &mut b2, 16_667);
    assert_eq!(b1.position, Vec2 { x: 500_000, y: 0 });
    assert_eq!(b2.position, Vec2 { x: 2_500_000, y: 0 });
}

#[test]
fn constrain_enforces_angle_limit() {
    // A revolute-style angle range [-1, 1] with a two-radian twist: the
    // excess radian is split between the bodies.
    let mut j = Joint::new_with_compliance(Entity(1), Entity(2), 0)
        .with_angle_limit(xpbd_core::joints::JointLimit::new(-1_000_000, 1_000_000));
    let mut b1 = body_at(0, 0, 0, 1_000_000);
    let mut b2 = body_at(0, 0, 0, 1_000_000);
    b2.rotation = 2_000_000;
    j.constrain(&mut b1, &mut b2, 16_667);
    assert_eq!(b1.rotation, 500_000);
    assert_eq!(b2.rotation, 1_500_000);
    // The relative angle now sits exactly at the limit.
    assert_eq!(b2.rotation - b1.rotation, 1_000_000);
}

#[test]
fn constrain_angle_inside_limit_is_untouched() {
    let mut j = Joint::new_with_compliance(Entity(1), Entity(2), 0)
        .with_angle_limit(xpbd_core::joints::JointLimit::new(-1_000_000, 1_000_000));
    let mut b1 = body_at(0, 0, 0, 1_000_000);
    let mut b2 = body_at(0, 0, 0, 1_000_000);
    b2.rotation = 500_000;
    j.constrain(&mut b1, &mut b2, 16_667);
    assert_eq!(b1.rotation, 0);
    assert_eq!(b2.rotation, 500_000);
    assert_eq!(j.angle_limit_lagrange, 0);
}

//! Scenario tests for the angular constraint and the joint limit helpers.

use xpbd_core::angular::AngularConstraint;
use xpbd_core::body::{MotionType, RigidBodyState};
use xpbd_core::joints::{Entity, Joint, JointLimit};
use xpbd_core::vec::{Vec2, Vec3};

fn dynamic_body(inverse_mass: i64, inverse_inertia: i64) -> RigidBodyState {
    RigidBodyState {
        position: Vec2 { x: 0, y: 0 },
        rotation: 0,
        lin_vel: Vec2 { x: 0, y: 0 },
        ang_vel: 0,
        inverse_mass,
        inverse_inertia,
        motion_type: MotionType::Dynamic,
    }
}

fn joint() -> Joint {
    Joint::new_with_compliance(Entity(1), Entity(2), 0)
}

#[test]
fn angular_correction_example_opposite_equal_response() {
    // axis +z, delta_lagrange -1.0, both dynamic with inverse inertia 2.0:
    // impulse 1.0, body1 turns +2.0 rad, body2 turns -2.0 rad.
    let j = joint();
    let mut b1 = dynamic_body(0, 2_000_000);
    let mut b2 = dynamic_body(0, 2_000_000);
    let p = j.apply_angular_correction(
        &mut b1,
        &mut b2,
        -1_000_000,
        Vec3 { x: 0, y: 0, z: 1_000_000 },
    );
    assert_eq!(p, 1_000_000);
    assert_eq!(b1.rotation, 2_000_000);
    assert_eq!(b2.rotation, -2_000_000);
}

#[test]
fn angular_correction_skips_zero_increment() {
    let j = joint();
    let mut b1 = dynamic_body(0, 2_000_000);
    let mut b2 = dynamic_body(0, 2_000_000);
    let p = j.apply_angular_correction(&mut b1, &mut b2, 0, Vec3 { x: 0, y: 0, z: 1_000_000 });
    assert_eq!(p, 0);
    assert_eq!(b1.rotation, 0);
    assert_eq!(b2.rotation, 0);
}

#[test]
fn angular_correction_skips_positive_increment() {
    let j = joint();
    let mut b1 = dynamic_body(0, 2_000_000);
    let mut b2 = dynamic_body(0, 2_000_000);
    let p = j.apply_angular_correction(
        &mut b1,
        &mut b2,
        1_000_000,
        Vec3 { x: 0, y: 0, z: 1_000_000 },
    );
    assert_eq!(p, 0);
    assert_eq!(b1.rotation, 0);
    assert_eq!(b2.rotation, 0);
}

#[test]
fn angular_correction_leaves_static_bodies_alone() {
    let j = joint();
    let mut b1 = dynamic_body(0, 2_000_000);
    b1.motion_type = MotionType::Static;
    let mut b2 = dynamic_body(0, 2_000_000);
    b2.motion_type = MotionType::Kinematic;
    let p = j.apply_angular_correction(
        &mut b1,
        &mut b2,
        -1_000_000,
        Vec3 { x: 0, y: 0, z: 1_000_000 },
    );
    assert_eq!(p, 1_000_000);
    assert_eq!(b1.rotation, 0);
    assert_eq!(b2.rotation, 0);
}

#[test]
fn generalized_inverse_mass_of_dynamic_body() {
    let j = joint();
    let b = dynamic_body(0, 3_000_000);
    let axis = Vec3 { x: 0, y: 0, z: 1_000_000 };
    assert_eq!(j.compute_generalized_inverse_mass(&b, axis), 3_000_000);
    // Scaling the inverse inertia scales the result.
    let b2 = dynamic_body(0, 6_000_000);
    assert_eq!(j.compute_generalized_inverse_mass(&b2, axis), 6_000_000);
}

#[test]
fn generalized_inverse_mass_of_immovable_bodies_is_zero() {
    let j = joint();
    let mut b = dynamic_body(1_000_000, 3_000_000);
    b.motion_type = MotionType::Static;
    let axis = Vec3 { x: 0, y: 0, z: 1_000_000 };
    assert_eq!(j.compute_generalized_inverse_mass(&b, axis), 0);
    b.motion_type = MotionType::Kinematic;
    assert_eq!(j.compute_generalized_inverse_mass(&b, axis), 0);
}

#[test]
fn delta_rot_is_inertia_times_impulse() {
    let r = <Joint as AngularConstraint>::get_delta_rot(0, 2_000_000, 1_000_000);
    assert_eq!(r, 2_000_000);
}

#[test]
fn torque_recovers_physical_units() {
    // lagrange -1.0 about +z over dt = 0.5 s: torque = -1 / 0.25 = -4.0.
    let j = joint();
    let t = j.compute_torque(-1_000_000, Vec3 { x: 0, y: 0, z: 1_000_000 }, 500_000);
    assert_eq!(t, -4_000_000);
}

#[test]
fn limit_distance_below_min_pulls_together() {
    let mut j = joint();
    let corr = j.limit_distance(
        1_000_000,
        2_000_000,
        Vec2 { x: 0, y: 0 },
        Vec2 { x: 0, y: 0 },
        &Vec2 { x: 0, y: 0 },
        &Vec2 { x: 500_000, y: 0 },
    );
    assert_eq!(corr, Vec2 { x: 500_000, y: 0 });
}

#[test]
fn limit_distance_inside_range_is_zero() {
    let mut j = joint();
    let corr = j.limit_distance(
        1_000_000,
        2_000_000,
        Vec2 { x: 0, y: 0 },
        Vec2 { x: 0, y: 0 },
        &Vec2 { x: 0, y: 0 },
        &Vec2 { x: 1_500_000, y: 0 },
    );
    assert_eq!(corr, Vec2 { x: 0, y: 0 });
}

#[test]
fn limit_distance_above_max_pushes_back() {
    let mut j = joint();
    let corr = j.limit_distance(
        1_000_000,
        2_000_000,
        Vec2 { x: 0, y: 0 },
        Vec2 { x: 0, y: 0 },
        &Vec2 { x: 0, y: 0 },
        &Vec2 { x: 3_000_000, y: 0 },
    );
    assert_eq!(corr, Vec2 { x: -1_000_000, y: 0 });
}

#[test]
fn limit_distance_degenerate_offset_is_zero() {
    let mut j = joint();
    let corr = j.limit_distance(
        1_000_000,
        2_000_000,
        Vec2 { x: 0, y: 0 },
        Vec2 { x: 0, y: 0 },
        &Vec2 { x: 0, y: 0 },
        &Vec2 { x: 1, y: 0 },
    );
    assert_eq!(corr, Vec2 { x: 0, y: 0 });
    let corr2 = j.limit_distance(
        1_000_000,
        2_000_000,
        Vec2 { x: 0, y: 0 },
        Vec2 { x: 0, y: 0 },
        &Vec2 { x: 0, y: 0 },
        &Vec2 { x: 0, y: 0 },
    );
    assert_eq!(corr2, Vec2 { x: 0, y: 0 });
}

#[test]
fn limit_distance_along_axis_above_max() {
    let mut j = joint();
    let corr = j.limit_distance_along_axis(
        -1_000_000,
        1_000_000,
        Vec2 { x: 1_000_000, y: 0 },
        Vec2 { x: 0, y: 0 },
        Vec2 { x: 0, y: 0 },
        &Vec2 { x: 0, y: 0 },
        &Vec2 { x: 2_000_000, y: 500_000 },
    );
    assert_eq!(corr, Vec2 { x: -1_000_000, y: 0 });
}

#[test]
fn limit_distance_along_axis_inside_range_is_zero() {
    let mut j = joint();
    let corr = j.limit_distance_along_axis(
        -1_000_000,
        1_000_000,
        Vec2 { x: 1_000_000, y: 0 },
        Vec2 { x: 0, y: 0 },
        Vec2 { x: 0, y: 0 },
        &Vec2 { x: 0, y: 0 },
        &Vec2 { x: 500_000, y: 500_000 },
    );
    assert_eq!(corr, Vec2 { x: 0, y: 0 });
}

#[test]
fn limit_angle_past_beta_caps_correction() {
    // n1 and n2 ninety degrees apart about +z; range [-1, 1] rad is
    // violated, so a correction comes back, capped at max_correction.
    let n = Vec3 { x: 0, y: 0, z: 1_000_000 };
    let n1 = Vec3 { x: 1_000_000, y: 0, z: 0 };
    let n2 = Vec3 { x: 0, y: 1_000_000, z: 0 };
    let corr = Joint::limit_angle(n, n1, n2, -1_000_000, 1_000_000, 500_000);
    let omega = corr.expect("the angle limit is violated");
    assert_eq!(omega, Vec3 { x: 0, y: 0, z: 500_000 });
}

#[test]
fn limit_angle_past_beta_uncapped_value() {
    let n = Vec3 { x: 0, y: 0, z: 1_000_000 };
    let n1 = Vec3 { x: 1_000_000, y: 0, z: 0 };
    let n2 = Vec3 { x: 0, y: 1_000_000, z: 0 };
    let corr = Joint::limit_angle(n, n1, n2, -1_000_000, 1_000_000, 1_000_000);
    // The correction is rotate(n1, by 1 rad about z) x n2, whose only
    // component is cos(1) about z.
    let omega = corr.expect("the angle limit is violated");
    assert_eq!(omega, Vec3 { x: 0, y: 0, z: 540_302 });
}

#[test]
fn limit_angle_inside_range_is_none() {
    let n = Vec3 { x: 0, y: 0, z: 1_000_000 };
    let n1 = Vec3 { x: 1_000_000, y: 0, z: 0 };
    let n2 = Vec3 { x: 0, y: 1_000_000, z: 0 };
    let corr = Joint::limit_angle(n, n1, n2, -2_000_000, 2_000_000, 500_000);
    assert!(corr.is_none());
}

#[test]
fn joint_limit_new_keeps_range() {
    let l = JointLimit::new(-3, 7);
    assert_eq!(l.min, -3);
    assert_eq!(l.max, 7);
}

#[test]
fn joint_builders_configure_fields() {
    let j = Joint::new_with_compliance(Entity(4), Entity(9), 250)
        .with_local_anchor_1(Vec2 { x: 10, y: 20 })
        .with_local_anchor_2(Vec2 { x: -10, y: -20 })
        .with_lin_vel_damping(7)
        .with_ang_vel_damping(8);
    assert_eq!(j.entities(), [Entity(4), Entity(9)]);
    assert_eq!(j.compliance, 250);
    assert_eq!(j.local_anchor_1, Vec2 { x: 10, y: 20 });
    assert_eq!(j.local_anchor_2, Vec2 { x: -10, y: -20 });
    assert_eq!(j.damping_lin(), 7);
    assert_eq!(j.damping_ang(), 8);
    assert_eq!(j.position_lagrange, 0);
    assert_eq!(j.align_lagrange, 0);
}

//! Tests for the spatial (quaternion) back end of the angular constraint.

use xpbd_core::body::MotionType;
use xpbd_core::dim3::{
    apply_angular_correction, compute_generalized_inverse_mass, compute_torque, get_delta_rot,
    Mat3, Quat, RigidBodyState3,
};
use xpbd_core::vec::Vec3;

fn identity_inertia() -> Mat3 {
    Mat3 {
        row_x: Vec3 { x: 1_000_000, y: 0, z: 0 },
        row_y: Vec3 { x: 0, y: 1_000_000, z: 0 },
        row_z: Vec3 { x: 0, y: 0, z: 1_000_000 },
    }
}

fn body3() -> RigidBodyState3 {
    RigidBodyState3 {
        rotation: Quat::identity(),
        inverse_inertia: identity_inertia(),
        motion_type: MotionType::Dynamic,
    }
}

#[test]
fn delta_rot_is_half_omega_quaternion() {
    let d = get_delta_rot(Quat::identity(), identity_inertia(), Vec3 { x: 0, y: 0, z: 1_000_000 });
    assert_eq!(d, Quat { x: 0, y: 0, z: 500_000, w: 0 });
}

#[test]
fn spatial_correction_turns_bodies_oppositely() {
    let mut b1 = body3();
    let mut b2 = body3();
    let p = apply_angular_correction(
        &mut b1,
        &mut b2,
        -1_000_000,
        Vec3 { x: 0, y: 0, z: 1_000_000 },
    );
    assert_eq!(p, Vec3 { x: 0, y: 0, z: 1_000_000 });
    assert_eq!(b1.rotation, Quat { x: 0, y: 0, z: 500_000, w: 1_000_000 });
    assert_eq!(b2.rotation, Quat { x: 0, y: 0, z: -500_000, w: 1_000_000 });
}

#[test]
fn spatial_correction_skips_nonnegative_increment() {
    let mut b1 = body3();
    let mut b2 = body3();
    let p = apply_angular_correction(&mut b1, &mut b2, 0, Vec3 { x: 0, y: 0, z: 1_000_000 });
    assert_eq!(p, Vec3 { x: 0, y: 0, z: 0 });
    assert_eq!(b1.rotation, Quat::identity());
    assert_eq!(b2.rotation, Quat::identity());
}

#[test]
fn spatial_generalized_inverse_mass() {
    let b = body3();
    assert_eq!(
        compute_generalized_inverse_mass(&b, Vec3 { x: 0, y: 0, z: 1_000_000 }),
        1_000_000
    );
    let mut s = body3();
    s.motion_type = MotionType::Static;
    assert_eq!(compute_generalized_inverse_mass(&s, Vec3 { x: 0, y: 0, z: 1_000_000 }), 0);
}

#[test]
fn spatial_torque_recovers_physical_units() {
    let t = compute_torque(-1_000_000, Vec3 { x: 0, y: 0, z: 1_000_000 }, 500_000);
    assert_eq!(t, Vec3 { x: 0, y: 0, z: -4_000_000 });
}

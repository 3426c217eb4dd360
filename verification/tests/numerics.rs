//! Exact-value tests for the fixed-point numeric kernel.

use xpbd_core::fixed::{
    asin_fp, clamp, cos_fp, fdiv, fmul, isqrt, muldiv, sin_fp, wrap_angle, EPSILON, HALF_PI_FP,
    PI_FP, SCALE, TWO_PI_FP,
};

#[test]
fn fixed_point_products_and_quotients() {
    assert_eq!(fmul(2_000_000, 3_000_000), 6_000_000);
    assert_eq!(fmul(-2_000_000, 3_000_000), -6_000_000);
    assert_eq!(fmul(1, 1), 0);
    assert_eq!(fdiv(1_000_000, 2_000_000), 500_000);
    assert_eq!(fdiv(-1_000_000, 2_000_000), -500_000);
    assert_eq!(muldiv(3, 1_000_000, 4), 750_000);
    assert_eq!(clamp(5, -3, 3), 3);
    assert_eq!(clamp(-5, -3, 3), -3);
    assert_eq!(clamp(2, -3, 3), 2);
}

#[test]
fn integer_square_roots_round_down() {
    assert_eq!(isqrt(0), 0);
    assert_eq!(isqrt(1), 1);
    assert_eq!(isqrt(3), 1);
    assert_eq!(isqrt(4), 2);
    assert_eq!(isqrt(250_000_000_000), 500_000);
    assert_eq!(isqrt(999_999), 999);
}

#[test]
fn wrap_angle_reduces_whole_turns() {
    assert_eq!(wrap_angle(0), 0);
    assert_eq!(wrap_angle(TWO_PI_FP + 1_000), 1_000);
    assert_eq!(wrap_angle(-TWO_PI_FP - 1_000), -1_000);
    assert_eq!(wrap_angle(PI_FP), PI_FP);
    assert!(wrap_angle(4_000_000) < 0);
}

#[test]
fn trig_values_at_one_radian() {
    assert_eq!(cos_fp(1_000_000), 540_302);
    assert_eq!(sin_fp(1_000_000), 841_469);
    assert_eq!(sin_fp(-1_000_000), -841_469);
    assert_eq!(cos_fp(-1_000_000), 540_302);
    assert_eq!(cos_fp(0), SCALE);
    assert_eq!(sin_fp(0), 0);
}

#[test]
fn arcsine_hits_the_endpoints() {
    assert_eq!(asin_fp(SCALE), HALF_PI_FP);
    assert_eq!(asin_fp(-SCALE), -HALF_PI_FP);
    // The approximation stays within a tenth of a thousandth of a radian.
    assert!(asin_fp(0).abs() < 100);
    assert!((asin_fp(500_000) - 523_599).abs() < 200);
}

#[test]
fn epsilon_is_the_smallest_step() {
    assert_eq!(EPSILON, 1);
}

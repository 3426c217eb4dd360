//! Fixed-point scalar arithmetic: the numeric kernel of the solver.
//!
//! A scalar is an `i64` counting millionths of a unit ([`SCALE`] per unit).
//! Every executable operation here is pinned by an `ensures` to a spec-level
//! mirror written with [`tdiv`], the round-toward-zero division that the
//! machine division performs.

use vstd::prelude::*;
use vstd::arithmetic::div_mod::{lemma_div_pos_is_pos, lemma_multiply_divide_le};

verus! {

/// One unit in the fixed-point encoding: scalars carry six decimal places.
pub const SCALE: i64 = 1_000_000;

/// The smallest positive scalar step, used as the degeneracy threshold.
pub const EPSILON: i64 = 1;

/// pi in the fixed-point encoding.
pub const PI_FP: i64 = 3_141_593;

/// pi / 2 in the fixed-point encoding.
pub const HALF_PI_FP: i64 = 1_570_796;

/// 2 * pi in the fixed-point encoding.
pub const TWO_PI_FP: i64 = 6_283_185;

/// Largest scalar magnitude the solver admits for positions, multipliers,
/// inverse masses and inverse inertias: one thousand units.
pub const SCALAR_MAX: i64 = 1_000_000_000;

/// Round-toward-zero division for a positive divisor: the rounding that the
/// machine division of two integers performs.
pub open spec fn tdiv(a: int, b: int) -> int
    recommends
        b > 0,
{
    if a >= 0 {
        a / b
    } else {
        -((-a) / b)
    }
}

/// The product of two fixed-point scalars.
pub open spec fn fmul_s(a: int, b: int) -> int {
    tdiv(a * b, SCALE as int)
}

/// The quotient of two fixed-point scalars, for a positive divisor.
pub open spec fn fdiv_s(a: int, b: int) -> int
    recommends
        b > 0,
{
    tdiv(a * (SCALE as int), b)
}

/// `a * b / d` in one rounding step, for a positive divisor.
pub open spec fn muldiv_s(a: int, b: int, d: int) -> int
    recommends
        d > 0,
{
    tdiv(a * b, d)
}

/// `x` clamped into `[lo, hi]`.
pub open spec fn clamp_s(x: int, lo: int, hi: int) -> int {
    if x < lo {
        lo
    } else if x > hi {
        hi
    } else {
        x
    }
}

/// The magnitude of `x`.
pub open spec fn abs_s(x: int) -> int {
    if x >= 0 {
        x
    } else {
        -x
    }
}

/// Truncating division never rounds away from zero: a bound on the dividend
/// gives the same bound, divided, on the quotient.
pub proof fn lemma_tdiv_bound(a: int, b: int, m: int)
    requires
        b >= 1,
        m >= 0,
        -m * b <= a <= m * b,
    ensures
        -m <= tdiv(a, b) <= m,
{
    if a >= 0 {
        lemma_div_pos_is_pos(a, b);
        assert(a <= b * m) by (nonlinear_arith)
            requires
                a <= m * b,
        ;
        lemma_multiply_divide_le(a, b, m);
    } else {
        lemma_div_pos_is_pos(-a, b);
        assert(-a <= b * m) by (nonlinear_arith)
            requires
                -m * b <= a,
        ;
        lemma_multiply_divide_le(-a, b, m);
    }
}

/// Truncating division of a value already bounded by the divisor in product
/// form: `|a| <= d` gives `|a * b / d| <= |b|`.
pub proof fn lemma_muldiv_bound(a: int, b: int, d: int)
    requires
        d >= 1,
        -d <= a <= d,
    ensures
        -abs_s(b) <= muldiv_s(a, b, d) <= abs_s(b),
{
    assert(-abs_s(b) * d <= a * b <= abs_s(b) * d) by (nonlinear_arith)
        requires
            d >= 1,
            -d <= a <= d,
    ;
    lemma_tdiv_bound(a * b, d, abs_s(b));
}

/// The product of two fixed-point scalars, rounded toward zero.
pub fn fmul(a: i64, b: i64) -> (r: i64)
    requires
        -9_223_372_036_854_775_807 * (SCALE as int) <= a as int * b as int
            <= 9_223_372_036_854_775_807 * (SCALE as int),
    ensures
        r == fmul_s(a as int, b as int),
{
    proof {
        lemma_tdiv_bound(a as int * b as int, SCALE as int, 9_223_372_036_854_775_807);
        assert(a as int * b as int <= 85070591730234615865843651857942052864
            && a as int * b as int >= -85070591730234615865843651857942052864) by (nonlinear_arith)
            requires
                -9223372036854775808 <= a <= 9223372036854775807,
                -9223372036854775808 <= b <= 9223372036854775807,
        ;
    }
    ((a as i128 * b as i128) / (SCALE as i128)) as i64
}

/// The quotient of two fixed-point scalars, rounded toward zero.
/// The divisor is positive, and the true quotient must fit the scalar type.
pub fn fdiv(a: i64, b: i64) -> (r: i64)
    requires
        b >= 1,
        -9_223_372_036_854_775_807 * b as int <= a as int * (SCALE as int)
            <= 9_223_372_036_854_775_807 * b as int,
    ensures
        r == fdiv_s(a as int, b as int),
{
    proof {
        lemma_tdiv_bound(a as int * (SCALE as int), b as int, 9_223_372_036_854_775_807);
    }
    ((a as i128 * SCALE as i128) / (b as i128)) as i64
}

/// `a * b / d` with a single rounding, for `|a| <= d`: the result is bounded
/// by `|b|`, so it always fits.
pub fn muldiv(a: i64, b: i64, d: i64) -> (r: i64)
    requires
        d >= 1,
        -d <= a <= d,
        -9_223_372_036_854_775_807 <= b,
    ensures
        r == muldiv_s(a as int, b as int, d as int),
        -abs_s(b as int) <= r <= abs_s(b as int),
{
    proof {
        lemma_muldiv_bound(a as int, b as int, d as int);
        assert(a as int * b as int <= 85070591730234615865843651857942052864
            && a as int * b as int >= -85070591730234615865843651857942052864) by (nonlinear_arith)
            requires
                -9223372036854775808 <= a <= 9223372036854775807,
                -9223372036854775808 <= b <= 9223372036854775807,
        ;
    }
    ((a as i128 * b as i128) / (d as i128)) as i64
}

/// `x` clamped into `[lo, hi]`.
pub fn clamp(x: i64, lo: i64, hi: i64) -> (r: i64)
    ensures
        r == clamp_s(x as int, lo as int, hi as int),
{
    if x < lo {
        lo
    } else if x > hi {
        hi
    } else {
        x
    }
}

/// `r` is the integer square root of `n`, rounded down.
pub open spec fn is_sqrt_floor(n: int, r: int) -> bool {
    0 <= r && r * r <= n && n < (r + 1) * (r + 1)
}

/// The integer square root of `n`, rounded down.
pub open spec fn sqrt_floor(n: int) -> int {
    choose|r: int| is_sqrt_floor(n, r)
}

/// Every non-negative integer has an integer square root.
pub proof fn lemma_sqrt_floor_exists(n: int)
    requires
        n >= 0,
    ensures
        is_sqrt_floor(n, sqrt_floor(n)),
    decreases n,
{
    if n == 0 {
        assert(is_sqrt_floor(0, 0));
    } else {
        lemma_sqrt_floor_exists(n - 1);
        let r = sqrt_floor(n - 1);
        if (r + 1) * (r + 1) <= n {
            assert(n - 1 < (r + 1) * (r + 1));
            assert(is_sqrt_floor(n, r + 1)) by (nonlinear_arith)
                requires
                    0 <= r,
                    (r + 1) * (r + 1) <= n,
                    n <= (r + 1) * (r + 1),
            ;
        } else {
            assert(is_sqrt_floor(n, r));
        }
    }
    let w = choose|w: int| is_sqrt_floor(n, w);
    assert(is_sqrt_floor(n, w));
}

/// The integer square root is unique.
pub proof fn lemma_sqrt_floor_unique(n: int, r: int)
    requires
        is_sqrt_floor(n, r),
    ensures
        r == sqrt_floor(n),
{
    lemma_sqrt_floor_exists(n);
    let w = sqrt_floor(n);
    assert(r == w) by (nonlinear_arith)
        requires
            0 <= r && r * r <= n && n < (r + 1) * (r + 1),
            0 <= w && w * w <= n && n < (w + 1) * (w + 1),
    ;
}

/// A square root bounds each part of a sum of squares: `x * x <= n` and
/// `n < (r + 1) * (r + 1)` force `|x| <= r`.
pub proof fn lemma_sqrt_floor_dominates(n: int, x: int)
    requires
        n >= 0,
        x * x <= n,
    ensures
        -sqrt_floor(n) <= x <= sqrt_floor(n),
{
    lemma_sqrt_floor_exists(n);
    let r = sqrt_floor(n);
    assert(-r <= x <= r) by (nonlinear_arith)
        requires
            0 <= r,
            x * x <= n,
            n < (r + 1) * (r + 1),
    ;
}

/// The integer square root of `n`, rounded down, by bisection.
pub fn isqrt(n: i128) -> (r: i64)
    requires
        0 <= n <= 1_000_000_000_000_000_000_000_000_000_000,
    ensures
        0 <= r,
        r as int == sqrt_floor(n as int),
{
    let mut lo: i128 = 0;
    let mut hi: i128 = 1_000_000_000_000_001;
    proof {
        assert(n < 1_000_000_000_000_001 * 1_000_000_000_000_001) by (nonlinear_arith)
            requires
                n <= 1_000_000_000_000_000_000_000_000_000_000,
        ;
    }
    while lo + 1 < hi
        invariant
            0 <= lo < hi <= 1_000_000_000_000_001,
            lo * lo <= n,
            n < hi * hi,
        decreases hi - lo,
    {
        let mid: i128 = lo + (hi - lo) / 2;
        proof {
            assert(mid * mid <= 1_000_000_000_000_001 * 1_000_000_000_000_001)
                by (nonlinear_arith)
                requires
                    0 <= mid <= 1_000_000_000_000_001,
            ;
        }
        if mid * mid <= n {
            lo = mid;
        } else {
            hi = mid;
        }
    }
    proof {
        lemma_sqrt_floor_unique(n as int, lo as int);
    }
    lo as i64
}

/// The representative of angle `x` in `[-pi, pi]`, shifted by whole turns.
pub open spec fn wrap_angle_s(x: int) -> int {
    let r = x - tdiv(x, TWO_PI_FP as int) * (TWO_PI_FP as int);
    if r > PI_FP as int {
        r - TWO_PI_FP as int
    } else if r < -(PI_FP as int) {
        r + TWO_PI_FP as int
    } else {
        r
    }
}

/// Reduces an angle to its representative in `[-pi, pi]`.
pub fn wrap_angle(x: i64) -> (r: i64)
    ensures
        r == wrap_angle_s(x as int),
        -(PI_FP as int) <= r <= PI_FP as int,
{
    let q: i64 = x / TWO_PI_FP;
    proof {
        lemma_tdiv_bound(x as int, TWO_PI_FP as int, abs_s(x as int));
        if x >= 0 {
            vstd::arithmetic::div_mod::lemma_fundamental_div_mod(x as int, TWO_PI_FP as int);
            vstd::arithmetic::div_mod::lemma_remainder_upper(x as int, TWO_PI_FP as int);
            vstd::arithmetic::div_mod::lemma_remainder_lower(x as int, TWO_PI_FP as int);
        } else {
            vstd::arithmetic::div_mod::lemma_fundamental_div_mod(-(x as int), TWO_PI_FP as int);
            vstd::arithmetic::div_mod::lemma_remainder_upper(-(x as int), TWO_PI_FP as int);
            vstd::arithmetic::div_mod::lemma_remainder_lower(-(x as int), TWO_PI_FP as int);
        }
    }
    let rem: i64 = x - q * TWO_PI_FP;
    if rem > PI_FP {
        rem - TWO_PI_FP
    } else if rem < -PI_FP {
        rem + TWO_PI_FP
    } else {
        rem
    }
}

/// Non-negative dividend, positive divisor: the quotient is non-negative.
pub proof fn lemma_tdiv_nonneg(a: int, b: int)
    requires
        0 <= a,
        b >= 1,
    ensures
        0 <= tdiv(a, b),
{
    lemma_div_pos_is_pos(a, b);
}

/// Fixed-point product of non-negative scalars: non-negative, and bounded by
/// `m` whenever the raw product is bounded by `m` units.
pub proof fn lemma_fmul_nn(a: int, b: int, m: int)
    requires
        0 <= a,
        0 <= b,
        m >= 0,
        a * b <= m * SCALE,
    ensures
        0 <= fmul_s(a, b) <= m,
{
    assert(a * b >= 0) by (nonlinear_arith)
        requires
            0 <= a,
            0 <= b,
    ;
    lemma_tdiv_bound(a * b, SCALE as int, m);
    lemma_tdiv_nonneg(a * b, SCALE as int);
}

/// Degree-eight Taylor polynomial of the cosine, on `[0, pi]`.
pub open spec fn cos_poly_s(x: int) -> int {
    let x2 = fmul_s(x, x);
    let x4 = fmul_s(x2, x2);
    let x6 = fmul_s(x4, x2);
    let x8 = fmul_s(x6, x2);
    SCALE as int - tdiv(x2, 2) + tdiv(x4, 24) - tdiv(x6, 720) + tdiv(x8, 40320)
}

/// The cosine of an angle in `[-pi, pi]`: an even function of its
/// argument, with the polynomial's value clamped into `[-1, 1]` so that
/// rotations keep unit vectors unit-scale.
pub open spec fn cos_s(x: int) -> int {
    clamp_s(cos_poly_s(abs_s(x)), -(SCALE as int), SCALE as int)
}

/// Degree-seven Taylor polynomial of the sine, on `[0, pi]`.
pub open spec fn sin_poly_s(x: int) -> int {
    let x2 = fmul_s(x, x);
    let x3 = fmul_s(x2, x);
    let x5 = fmul_s(x3, x2);
    let x7 = fmul_s(x5, x2);
    x - tdiv(x3, 6) + tdiv(x5, 120) - tdiv(x7, 5040)
}

/// The sine of an angle in `[-pi, pi]`: an odd function of its argument,
/// with the polynomial's value clamped into `[-1, 1]` so that rotations
/// keep unit vectors unit-scale.
pub open spec fn sin_s(x: int) -> int {
    if x >= 0 {
        clamp_s(sin_poly_s(x), -(SCALE as int), SCALE as int)
    } else {
        -clamp_s(sin_poly_s(-x), -(SCALE as int), SCALE as int)
    }
}

/// The cosine of an angle in `[-pi, pi]`, by its Taylor polynomial.
pub fn cos_fp(x: i64) -> (r: i64)
    requires
        -(PI_FP as int) <= x <= PI_FP as int,
    ensures
        r == cos_s(x as int),
        -(SCALE as int) <= r <= SCALE as int,
{
    let a: i64 = if x >= 0 { x } else { -x };
    proof {
        assert(a * a <= 10_000_000 * SCALE) by (nonlinear_arith)
            requires
                0 <= a <= 3_141_593,
        ;
    }
    let x2 = fmul(a, a);
    proof {
        lemma_fmul_nn(a as int, a as int, 10_000_000);
        assert(x2 * x2 <= 100_000_000 * SCALE) by (nonlinear_arith)
            requires
                0 <= x2 <= 10_000_000,
        ;
    }
    let x4 = fmul(x2, x2);
    proof {
        lemma_fmul_nn(x2 as int, x2 as int, 100_000_000);
        assert(x4 * x2 <= 1_000_000_000 * SCALE) by (nonlinear_arith)
            requires
                0 <= x2 <= 10_000_000,
                0 <= x4 <= 100_000_000,
        ;
    }
    let x6 = fmul(x4, x2);
    proof {
        lemma_fmul_nn(x4 as int, x2 as int, 1_000_000_000);
        assert(x6 * x2 <= 10_000_000_000 * SCALE) by (nonlinear_arith)
            requires
                0 <= x2 <= 10_000_000,
                0 <= x6 <= 1_000_000_000,
        ;
    }
    let x8 = fmul(x6, x2);
    proof {
        lemma_fmul_nn(x6 as int, x2 as int, 10_000_000_000);
        lemma_tdiv_nonneg(x2 as int, 2);
        lemma_tdiv_nonneg(x4 as int, 24);
        lemma_tdiv_nonneg(x6 as int, 720);
        lemma_tdiv_nonneg(x8 as int, 40320);
        lemma_tdiv_bound(x2 as int, 2, 10_000_000);
        lemma_tdiv_bound(x4 as int, 24, 100_000_000);
        lemma_tdiv_bound(x6 as int, 720, 1_000_000_000);
        lemma_tdiv_bound(x8 as int, 40320, 10_000_000_000);
    }
    clamp(SCALE - x2 / 2 + x4 / 24 - x6 / 720 + x8 / 40320, -SCALE, SCALE)
}

/// The sine of an angle in `[-pi, pi]`, by its Taylor polynomial.
pub fn sin_fp(x: i64) -> (r: i64)
    requires
        -(PI_FP as int) <= x <= PI_FP as int,
    ensures
        r == sin_s(x as int),
        -(SCALE as int) <= r <= SCALE as int,
{
    let a: i64 = if x >= 0 { x } else { -x };
    proof {
        assert(a * a <= 10_000_000 * SCALE) by (nonlinear_arith)
            requires
                0 <= a <= 3_141_593,
        ;
    }
    let x2 = fmul(a, a);
    proof {
        lemma_fmul_nn(a as int, a as int, 10_000_000);
        assert(x2 * a <= 32_000_000 * SCALE) by (nonlinear_arith)
            requires
                0 <= a <= 3_141_593,
                0 <= x2 <= 10_000_000,
        ;
    }
    let x3 = fmul(x2, a);
    proof {
        lemma_fmul_nn(x2 as int, a as int, 32_000_000);
        assert(x3 * x2 <= 320_000_000 * SCALE) by (nonlinear_arith)
            requires
                0 <= x2 <= 10_000_000,
                0 <= x3 <= 32_000_000,
        ;
    }
    let x5 = fmul(x3, x2);
    proof {
        lemma_fmul_nn(x3 as int, x2 as int, 320_000_000);
        assert(x5 * x2 <= 3_200_000_000 * SCALE) by (nonlinear_arith)
            requires
                0 <= x2 <= 10_000_000,
                0 <= x5 <= 320_000_000,
        ;
    }
    let x7 = fmul(x5, x2);
    proof {
        lemma_fmul_nn(x5 as int, x2 as int, 3_200_000_000);
        lemma_tdiv_nonneg(x3 as int, 6);
        lemma_tdiv_nonneg(x5 as int, 120);
        lemma_tdiv_nonneg(x7 as int, 5040);
        lemma_tdiv_bound(x3 as int, 6, 32_000_000);
        lemma_tdiv_bound(x5 as int, 120, 320_000_000);
        lemma_tdiv_bound(x7 as int, 5040, 3_200_000_000);
    }
    let p: i64 = clamp(a - x3 / 6 + x5 / 120 - x7 / 5040, -SCALE, SCALE);
    if x >= 0 { p } else { -p }
}

/// Cubic arcsine approximation on `[0, 1]`, exact at the endpoint:
/// `pi/2 - sqrt(1 - x) * (a0 - a1 x + a2 x^2 - a3 x^3)`, with the classic
/// coefficients whose absolute error stays below seven hundredths of a
/// thousandth of a radian.
pub open spec fn asin_poly_s(x: int) -> int {
    let s = sqrt_floor((SCALE as int - x) * (SCALE as int));
    let poly = 1_570_729 - fmul_s(x, 212_114 - fmul_s(x, 74_261 - fmul_s(x, 18_729)));
    HALF_PI_FP as int - fmul_s(s, poly)
}

/// The arcsine of a scalar in `[-1, 1]`: an odd function of its argument.
pub open spec fn asin_s(x: int) -> int {
    if x >= 0 {
        asin_poly_s(x)
    } else {
        -asin_poly_s(-x)
    }
}

/// The arcsine of a scalar in `[-1, 1]`, in radians in `[-pi/2, pi/2]`.
pub fn asin_fp(x: i64) -> (r: i64)
    requires
        -(SCALE as int) <= x <= SCALE as int,
    ensures
        r == asin_s(x as int),
        -(HALF_PI_FP as int) <= r <= HALF_PI_FP as int,
{
    let a: i64 = if x >= 0 { x } else { -x };
    proof {
        assert((SCALE as int - a) * (SCALE as int) <= 1_000_000_000_000_000_000_000_000_000_000)
            by (nonlinear_arith)
            requires
                0 <= a <= SCALE,
        ;
        assert((SCALE as int - a) * (SCALE as int) >= 0) by (nonlinear_arith)
            requires
                0 <= a <= SCALE,
        ;
    }
    let sq: i128 = (SCALE - a) as i128 * SCALE as i128;
    let s: i64 = isqrt(sq);
    proof {
        lemma_sqrt_floor_exists(sq as int);
        assert(s as int <= SCALE) by (nonlinear_arith)
            requires
                0 <= s,
                s as int * s as int <= sq,
                sq <= 1_000_000_000_000,
        ;
        assert(a * 18_729 <= 18_729 * SCALE) by (nonlinear_arith)
            requires
                0 <= a <= SCALE,
        ;
    }
    let t3 = fmul(a, 18_729);
    proof {
        lemma_fmul_nn(a as int, 18_729, 18_729);
        assert(a * (74_261 - t3) <= 74_261 * SCALE) by (nonlinear_arith)
            requires
                0 <= a <= SCALE,
                0 <= t3 <= 18_729,
        ;
    }
    let t2 = fmul(a, 74_261 - t3);
    proof {
        lemma_fmul_nn(a as int, 74_261 - t3 as int, 74_261);
        assert(a * (212_114 - t2) <= 212_114 * SCALE) by (nonlinear_arith)
            requires
                0 <= a <= SCALE,
                0 <= t2 <= 74_261,
        ;
    }
    let t1 = fmul(a, 212_114 - t2);
    proof {
        lemma_fmul_nn(a as int, 212_114 - t2 as int, 212_114);
        assert(s as int * (1_570_729 - t1) <= 1_570_729 * SCALE) by (nonlinear_arith)
            requires
                0 <= s <= SCALE,
                0 <= t1 <= 212_114,
        ;
    }
    let m = fmul(s, 1_570_729 - t1);
    proof {
        lemma_fmul_nn(s as int, 1_570_729 - t1 as int, 1_570_729);
    }
    let p: i64 = HALF_PI_FP - m;
    if x >= 0 { p } else { -p }
}

/// Componentwise bound for a fixed-point product, from bounds on the two
/// factors: `|a| <= ma`, `|b| <= mb` and `ma * mb <= m * SCALE` give
/// `|fmul_s(a, b)| <= m`.
pub proof fn lemma_fmul_abs(a: int, b: int, ma: int, mb: int, m: int)
    requires
        0 <= ma,
        0 <= mb,
        -ma <= a <= ma,
        -mb <= b <= mb,
        m >= 0,
        ma * mb <= m * SCALE,
    ensures
        -m <= fmul_s(a, b) <= m,
{
    assert(-(ma * mb) <= a * b <= ma * mb) by (nonlinear_arith)
        requires
            0 <= ma,
            0 <= mb,
            -ma <= a <= ma,
            -mb <= b <= mb,
    ;
    lemma_tdiv_bound(a * b, SCALE as int, m);
}

} // verus!

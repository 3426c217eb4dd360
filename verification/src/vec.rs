//! Two- and three-component fixed-point vectors.
//!
//! Each executable vector type has a spec-level model with unbounded integer
//! components (`V2s`, `V3s`); every executable operation is pinned to the
//! model operation by its `ensures`.

use vstd::prelude::*;
use crate::fixed::{
    fmul, fmul_s, isqrt, sqrt_floor, lemma_sqrt_floor_exists, lemma_sqrt_floor_dominates,
    wrap_angle, wrap_angle_s, cos_fp, cos_s, sin_fp, sin_s, SCALE, SCALAR_MAX,
};

verus! {

/// Spec model of a planar vector: unbounded integer components.
pub struct V2s {
    pub x: int,
    pub y: int,
}

/// Spec model of a spatial vector: unbounded integer components.
pub struct V3s {
    pub x: int,
    pub y: int,
    pub z: int,
}

impl V2s {
    pub open spec fn add_s(self, o: V2s) -> V2s {
        V2s { x: self.x + o.x, y: self.y + o.y }
    }

    pub open spec fn sub_s(self, o: V2s) -> V2s {
        V2s { x: self.x - o.x, y: self.y - o.y }
    }

    pub open spec fn neg_s(self) -> V2s {
        V2s { x: -self.x, y: -self.y }
    }

    /// Componentwise fixed-point scaling.
    pub open spec fn scale_s(self, k: int) -> V2s {
        V2s { x: fmul_s(self.x, k), y: fmul_s(self.y, k) }
    }

    /// Fixed-point dot product.
    pub open spec fn dot_s(self, o: V2s) -> int {
        fmul_s(self.x, o.x) + fmul_s(self.y, o.y)
    }

    /// The planar cross product: the z component of the spatial one.
    pub open spec fn cross_s(self, o: V2s) -> int {
        fmul_s(self.x, o.y) - fmul_s(self.y, o.x)
    }

    /// The raw (unscaled) sum of squared components.
    pub open spec fn len_sq_raw(self) -> int {
        self.x * self.x + self.y * self.y
    }

    /// The length: square root of the sum of squares, in the same encoding
    /// as the components.
    pub open spec fn len_s(self) -> int {
        sqrt_floor(self.len_sq_raw())
    }

    /// The vector turned by angle `theta` (any whole-turn representative).
    pub open spec fn rotate_s(self, theta: int) -> V2s {
        let c = cos_s(wrap_angle_s(theta));
        let s = sin_s(wrap_angle_s(theta));
        V2s { x: fmul_s(c, self.x) - fmul_s(s, self.y), y: fmul_s(s, self.x) + fmul_s(c, self.y) }
    }

    pub open spec fn in_bounds(self, m: int) -> bool {
        -m <= self.x <= m && -m <= self.y <= m
    }
}

impl V3s {
    pub open spec fn add_s(self, o: V3s) -> V3s {
        V3s { x: self.x + o.x, y: self.y + o.y, z: self.z + o.z }
    }

    pub open spec fn sub_s(self, o: V3s) -> V3s {
        V3s { x: self.x - o.x, y: self.y - o.y, z: self.z - o.z }
    }

    /// Componentwise fixed-point scaling.
    pub open spec fn scale_s(self, k: int) -> V3s {
        V3s { x: fmul_s(self.x, k), y: fmul_s(self.y, k), z: fmul_s(self.z, k) }
    }

    /// Fixed-point dot product.
    pub open spec fn dot_s(self, o: V3s) -> int {
        fmul_s(self.x, o.x) + fmul_s(self.y, o.y) + fmul_s(self.z, o.z)
    }

    /// Fixed-point cross product.
    pub open spec fn cross_s(self, o: V3s) -> V3s {
        V3s {
            x: fmul_s(self.y, o.z) - fmul_s(self.z, o.y),
            y: fmul_s(self.z, o.x) - fmul_s(self.x, o.z),
            z: fmul_s(self.x, o.y) - fmul_s(self.y, o.x),
        }
    }

    /// The raw (unscaled) sum of squared components.
    pub open spec fn len_sq_raw(self) -> int {
        self.x * self.x + self.y * self.y + self.z * self.z
    }

    /// The length: square root of the sum of squares, in the same encoding
    /// as the components.
    pub open spec fn len_s(self) -> int {
        sqrt_floor(self.len_sq_raw())
    }

    pub open spec fn in_bounds(self, m: int) -> bool {
        -m <= self.x <= m && -m <= self.y <= m && -m <= self.z <= m
    }
}

/// A planar vector of fixed-point scalars.
#[derive(Clone, Copy, Debug, PartialEq, Eq, Structural)]
pub struct Vec2 {
    pub x: i64,
    pub y: i64,
}

/// A spatial vector of fixed-point scalars.
#[derive(Clone, Copy, Debug, PartialEq, Eq, Structural)]
pub struct Vec3 {
    pub x: i64,
    pub y: i64,
    pub z: i64,
}

impl View for Vec2 {
    type V = V2s;

    open spec fn view(&self) -> V2s {
        V2s { x: self.x as int, y: self.y as int }
    }
}

impl View for Vec3 {
    type V = V3s;

    open spec fn view(&self) -> V3s {
        V3s { x: self.x as int, y: self.y as int, z: self.z as int }
    }
}

impl Vec2 {
    pub fn new(x: i64, y: i64) -> (r: Vec2)
        ensures
            r@ == (V2s { x: x as int, y: y as int }),
    {
        Vec2 { x, y }
    }

    pub fn zero() -> (r: Vec2)
        ensures
            r@ == (V2s { x: 0, y: 0 }),
    {
        Vec2 { x: 0, y: 0 }
    }

    pub fn add(self, o: Vec2) -> (r: Vec2)
        requires
            self@.in_bounds(2_000_000_000_000_000_000),
            o@.in_bounds(2_000_000_000_000_000_000),
        ensures
            r@ == self@.add_s(o@),
    {
        Vec2 { x: self.x + o.x, y: self.y + o.y }
    }

    pub fn sub(self, o: Vec2) -> (r: Vec2)
        requires
            self@.in_bounds(2_000_000_000_000_000_000),
            o@.in_bounds(2_000_000_000_000_000_000),
        ensures
            r@ == self@.sub_s(o@),
    {
        Vec2 { x: self.x - o.x, y: self.y - o.y }
    }

    pub fn neg(self) -> (r: Vec2)
        requires
            self@.in_bounds(2_000_000_000_000_000_000),
        ensures
            r@ == self@.neg_s(),
    {
        Vec2 { x: -self.x, y: -self.y }
    }

    /// Scales both components by the fixed-point factor `k`.
    pub fn scale(self, k: i64) -> (r: Vec2)
        requires
            -9_223_372_036_854_775_807 * (SCALE as int) <= self@.x * k
                <= 9_223_372_036_854_775_807 * (SCALE as int),
            -9_223_372_036_854_775_807 * (SCALE as int) <= self@.y * k
                <= 9_223_372_036_854_775_807 * (SCALE as int),
        ensures
            r@ == self@.scale_s(k as int),
    {
        Vec2 { x: fmul(self.x, k), y: fmul(self.y, k) }
    }

    pub fn dot(self, o: Vec2) -> (r: i64)
        requires
            -4_000_000_000_000_000_000 * (SCALE as int) <= self@.x * o@.x
                <= 4_000_000_000_000_000_000 * (SCALE as int),
            -4_000_000_000_000_000_000 * (SCALE as int) <= self@.y * o@.y
                <= 4_000_000_000_000_000_000 * (SCALE as int),
        ensures
            r == self@.dot_s(o@),
    {
        proof {
            crate::fixed::lemma_tdiv_bound(self@.x * o@.x, SCALE as int, 4_000_000_000_000_000_000);
            crate::fixed::lemma_tdiv_bound(self@.y * o@.y, SCALE as int, 4_000_000_000_000_000_000);
        }
        fmul(self.x, o.x) + fmul(self.y, o.y)
    }

    /// The planar cross product: the z component of the spatial one.
    pub fn cross(self, o: Vec2) -> (r: i64)
        requires
            -4_000_000_000_000_000_000 * (SCALE as int) <= self@.x * o@.y
                <= 4_000_000_000_000_000_000 * (SCALE as int),
            -4_000_000_000_000_000_000 * (SCALE as int) <= self@.y * o@.x
                <= 4_000_000_000_000_000_000 * (SCALE as int),
        ensures
            r == self@.cross_s(o@),
    {
        proof {
            crate::fixed::lemma_tdiv_bound(self@.x * o@.y, SCALE as int, 4_000_000_000_000_000_000);
            crate::fixed::lemma_tdiv_bound(self@.y * o@.x, SCALE as int, 4_000_000_000_000_000_000);
        }
        fmul(self.x, o.y) - fmul(self.y, o.x)
    }

    /// The length of the vector, in the same encoding as the components.
    pub fn length(self) -> (r: i64)
        requires
            self@.in_bounds(100_000_000_000_000),
        ensures
            r == self@.len_s(),
            0 <= r <= 150_000_000_000_000,
            -r <= self@.x <= r,
            -r <= self@.y <= r,
    {
        proof {
            assert(self@.x * self@.x + self@.y * self@.y
                <= 20_000_000_000_000_000_000_000_000_000
                && self@.x * self@.x >= 0
                && self@.y * self@.y >= 0) by (nonlinear_arith)
                requires
                    self@.in_bounds(100_000_000_000_000),
            ;
        }
        let sq: i128 = self.x as i128 * self.x as i128 + self.y as i128 * self.y as i128;
        let r = isqrt(sq);
        proof {
            let n = self@.len_sq_raw();
            lemma_sqrt_floor_dominates(n, self@.x);
            lemma_sqrt_floor_dominates(n, self@.y);
            lemma_sqrt_floor_exists(n);
            assert(r as int <= 150_000_000_000_000) by (nonlinear_arith)
                requires
                    0 <= r as int,
                    r as int * r as int <= n,
                    n <= 20_000_000_000_000_000_000_000_000_000,
            ;
        }
        r
    }

    /// The vector turned by angle `theta` (any whole-turn representative).
    pub fn rotate(self, theta: i64) -> (r: Vec2)
        requires
            self@.in_bounds(SCALAR_MAX as int),
        ensures
            r@ == self@.rotate_s(theta as int),
            r@.in_bounds(2 * SCALAR_MAX as int),
            self@.in_bounds(SCALE as int) ==> r@.in_bounds(2_000_000),
    {
        let w = wrap_angle(theta);
        let c = cos_fp(w);
        let s = sin_fp(w);
        proof {
            crate::fixed::lemma_fmul_abs(c as int, self@.x, SCALE as int, SCALAR_MAX as int,
                SCALAR_MAX as int);
            crate::fixed::lemma_fmul_abs(c as int, self@.y, SCALE as int, SCALAR_MAX as int,
                SCALAR_MAX as int);
            crate::fixed::lemma_fmul_abs(s as int, self@.x, SCALE as int, SCALAR_MAX as int,
                SCALAR_MAX as int);
            crate::fixed::lemma_fmul_abs(s as int, self@.y, SCALE as int, SCALAR_MAX as int,
                SCALAR_MAX as int);
            if self@.in_bounds(SCALE as int) {
                crate::fixed::lemma_fmul_abs(c as int, self@.x, SCALE as int, SCALE as int,
                    SCALE as int);
                crate::fixed::lemma_fmul_abs(c as int, self@.y, SCALE as int, SCALE as int,
                    SCALE as int);
                crate::fixed::lemma_fmul_abs(s as int, self@.x, SCALE as int, SCALE as int,
                    SCALE as int);
                crate::fixed::lemma_fmul_abs(s as int, self@.y, SCALE as int, SCALE as int,
                    SCALE as int);
            }
        }
        Vec2 { x: fmul(c, self.x) - fmul(s, self.y), y: fmul(s, self.x) + fmul(c, self.y) }
    }
}

impl Vec3 {
    pub fn new(x: i64, y: i64, z: i64) -> (r: Vec3)
        ensures
            r@ == (V3s { x: x as int, y: y as int, z: z as int }),
    {
        Vec3 { x, y, z }
    }

    pub fn zero() -> (r: Vec3)
        ensures
            r@ == (V3s { x: 0, y: 0, z: 0 }),
    {
        Vec3 { x: 0, y: 0, z: 0 }
    }

    pub fn add(self, o: Vec3) -> (r: Vec3)
        requires
            self@.in_bounds(2_000_000_000_000_000_000),
            o@.in_bounds(2_000_000_000_000_000_000),
        ensures
            r@ == self@.add_s(o@),
    {
        Vec3 { x: self.x + o.x, y: self.y + o.y, z: self.z + o.z }
    }

    pub fn sub(self, o: Vec3) -> (r: Vec3)
        requires
            self@.in_bounds(2_000_000_000_000_000_000),
            o@.in_bounds(2_000_000_000_000_000_000),
        ensures
            r@ == self@.sub_s(o@),
    {
        Vec3 { x: self.x - o.x, y: self.y - o.y, z: self.z - o.z }
    }

    /// Scales the components by the fixed-point factor `k`.
    pub fn scale(self, k: i64) -> (r: Vec3)
        requires
            self@.in_bounds(1_000_000_000_000),
            -1_000_000_000_000 <= k <= 1_000_000_000_000,
        ensures
            r@ == self@.scale_s(k as int),
            r@.in_bounds(1_000_000_000_000_000_000),
    {
        proof {
            assert(self@.x * k <= 1_000_000_000_000_000_000 * SCALE
                && self@.x * k >= -1_000_000_000_000_000_000 * SCALE
                && self@.y * k <= 1_000_000_000_000_000_000 * SCALE
                && self@.y * k >= -1_000_000_000_000_000_000 * SCALE
                && self@.z * k <= 1_000_000_000_000_000_000 * SCALE
                && self@.z * k >= -1_000_000_000_000_000_000 * SCALE) by (nonlinear_arith)
                requires
                    self@.in_bounds(1_000_000_000_000),
                    -1_000_000_000_000 <= k as int <= 1_000_000_000_000,
            ;
            crate::fixed::lemma_tdiv_bound(self@.x * k, SCALE as int, 1_000_000_000_000_000_000);
            crate::fixed::lemma_tdiv_bound(self@.y * k, SCALE as int, 1_000_000_000_000_000_000);
            crate::fixed::lemma_tdiv_bound(self@.z * k, SCALE as int, 1_000_000_000_000_000_000);
        }
        Vec3 { x: fmul(self.x, k), y: fmul(self.y, k), z: fmul(self.z, k) }
    }

    pub fn dot(self, o: Vec3) -> (r: i64)
        requires
            self@.in_bounds(1_000_000_000_000),
            o@.in_bounds(1_000_000_000_000),
        ensures
            r == self@.dot_s(o@),
            -3_000_000_000_000_000_000 <= r <= 3_000_000_000_000_000_000,
    {
        proof {
            assert(self@.x * o@.x <= 1_000_000_000_000_000_000 * SCALE
                && self@.x * o@.x >= -1_000_000_000_000_000_000 * SCALE
                && self@.y * o@.y <= 1_000_000_000_000_000_000 * SCALE
                && self@.y * o@.y >= -1_000_000_000_000_000_000 * SCALE
                && self@.z * o@.z <= 1_000_000_000_000_000_000 * SCALE
                && self@.z * o@.z >= -1_000_000_000_000_000_000 * SCALE) by (nonlinear_arith)
                requires
                    self@.in_bounds(1_000_000_000_000),
                    o@.in_bounds(1_000_000_000_000),
            ;
            crate::fixed::lemma_tdiv_bound(self@.x * o@.x, SCALE as int, 1_000_000_000_000_000_000);
            crate::fixed::lemma_tdiv_bound(self@.y * o@.y, SCALE as int, 1_000_000_000_000_000_000);
            crate::fixed::lemma_tdiv_bound(self@.z * o@.z, SCALE as int, 1_000_000_000_000_000_000);
        }
        fmul(self.x, o.x) + fmul(self.y, o.y) + fmul(self.z, o.z)
    }

    pub fn cross(self, o: Vec3) -> (r: Vec3)
        requires
            self@.in_bounds(1_000_000_000_000),
            o@.in_bounds(1_000_000_000_000),
        ensures
            r@ == self@.cross_s(o@),
            r@.in_bounds(2_000_000_000_000_000_000),
    {
        proof {
            let bb: int = 1_000_000_000_000_000_000 * (SCALE as int);
            assert(-bb <= self@.y * o@.z <= bb && -bb <= self@.z * o@.y <= bb && -bb <= self@.z
                * o@.x <= bb && -bb <= self@.x * o@.z <= bb && -bb <= self@.x * o@.y <= bb && -bb
                <= self@.y * o@.x <= bb) by (nonlinear_arith)
                requires
                    bb == 1_000_000_000_000_000_000 * (SCALE as int),
                    self@.in_bounds(1_000_000_000_000),
                    o@.in_bounds(1_000_000_000_000),
            ;
            crate::fixed::lemma_tdiv_bound(self@.y * o@.z, SCALE as int, 1_000_000_000_000_000_000);
            crate::fixed::lemma_tdiv_bound(self@.z * o@.y, SCALE as int, 1_000_000_000_000_000_000);
            crate::fixed::lemma_tdiv_bound(self@.z * o@.x, SCALE as int, 1_000_000_000_000_000_000);
            crate::fixed::lemma_tdiv_bound(self@.x * o@.z, SCALE as int, 1_000_000_000_000_000_000);
            crate::fixed::lemma_tdiv_bound(self@.x * o@.y, SCALE as int, 1_000_000_000_000_000_000);
            crate::fixed::lemma_tdiv_bound(self@.y * o@.x, SCALE as int, 1_000_000_000_000_000_000);
        }
        Vec3 {
            x: fmul(self.y, o.z) - fmul(self.z, o.y),
            y: fmul(self.z, o.x) - fmul(self.x, o.z),
            z: fmul(self.x, o.y) - fmul(self.y, o.x),
        }
    }

    /// The length of the vector, in the same encoding as the components.
    pub fn length(self) -> (r: i64)
        requires
            self@.in_bounds(100_000_000_000_000),
        ensures
            r == self@.len_s(),
            0 <= r <= 180_000_000_000_000,
            -r <= self@.x <= r,
            -r <= self@.y <= r,
            -r <= self@.z <= r,
    {
        proof {
            assert(self@.x * self@.x + self@.y * self@.y + self@.z * self@.z
                <= 30_000_000_000_000_000_000_000_000_000
                && self@.x * self@.x >= 0
                && self@.y * self@.y >= 0
                && self@.z * self@.z >= 0) by (nonlinear_arith)
                requires
                    self@.in_bounds(100_000_000_000_000),
            ;
        }
        let sq: i128 = self.x as i128 * self.x as i128 + self.y as i128 * self.y as i128
            + self.z as i128 * self.z as i128;
        let r = isqrt(sq);
        proof {
            let n = self@.len_sq_raw();
            lemma_sqrt_floor_dominates(n, self@.x);
            lemma_sqrt_floor_dominates(n, self@.y);
            lemma_sqrt_floor_dominates(n, self@.z);
            lemma_sqrt_floor_exists(n);
            assert(r as int <= 180_000_000_000_000) by (nonlinear_arith)
                requires
                    0 <= r as int,
                    r as int * r as int <= n,
                    n <= 30_000_000_000_000_000_000_000_000_000,
            ;
        }
        r
    }
}

/// A bound on the components of a planar vector bounds its length.
pub proof fn lemma_len2_bound(v: V2s, m: int)
    requires
        m >= 0,
        v.in_bounds(m),
    ensures
        0 <= v.len_s() <= 2 * m,
{
    assert(0 <= v.len_sq_raw() <= 2 * m * m) by (nonlinear_arith)
        requires
            m >= 0,
            v.in_bounds(m),
    ;
    lemma_sqrt_floor_exists(v.len_sq_raw());
    let r = v.len_s();
    assert(r <= 2 * m) by (nonlinear_arith)
        requires
            0 <= r,
            r * r <= v.len_sq_raw(),
            v.len_sq_raw() <= 2 * m * m,
            m >= 0,
    ;
}

/// Componentwise bound for a spatial cross product from bounds on its
/// factors.
pub proof fn lemma_cross3_bounds(a: V3s, b: V3s, ma: int, mb: int, m: int)
    requires
        0 <= ma,
        0 <= mb,
        a.in_bounds(ma),
        b.in_bounds(mb),
        m >= 0,
        ma * mb <= m * (SCALE as int),
    ensures
        a.cross_s(b).in_bounds(2 * m),
{
    crate::fixed::lemma_fmul_abs(a.y, b.z, ma, mb, m);
    crate::fixed::lemma_fmul_abs(a.z, b.y, ma, mb, m);
    crate::fixed::lemma_fmul_abs(a.z, b.x, ma, mb, m);
    crate::fixed::lemma_fmul_abs(a.x, b.z, ma, mb, m);
    crate::fixed::lemma_fmul_abs(a.x, b.y, ma, mb, m);
    crate::fixed::lemma_fmul_abs(a.y, b.x, ma, mb, m);
}

/// Bound for a spatial dot product from bounds on its factors.
pub proof fn lemma_dot3_bounds(a: V3s, b: V3s, ma: int, mb: int, m: int)
    requires
        0 <= ma,
        0 <= mb,
        a.in_bounds(ma),
        b.in_bounds(mb),
        m >= 0,
        ma * mb <= m * (SCALE as int),
    ensures
        -3 * m <= a.dot_s(b) <= 3 * m,
{
    crate::fixed::lemma_fmul_abs(a.x, b.x, ma, mb, m);
    crate::fixed::lemma_fmul_abs(a.y, b.y, ma, mb, m);
    crate::fixed::lemma_fmul_abs(a.z, b.z, ma, mb, m);
}

/// Componentwise bound for a scaled spatial vector.
pub proof fn lemma_scale3_bounds(a: V3s, k: int, ma: int, mk: int, m: int)
    requires
        0 <= ma,
        0 <= mk,
        a.in_bounds(ma),
        -mk <= k <= mk,
        m >= 0,
        ma * mk <= m * (SCALE as int),
    ensures
        a.scale_s(k).in_bounds(m),
{
    crate::fixed::lemma_fmul_abs(a.x, k, ma, mk, m);
    crate::fixed::lemma_fmul_abs(a.y, k, ma, mk, m);
    crate::fixed::lemma_fmul_abs(a.z, k, ma, mk, m);
}

/// Componentwise bound for a scaled planar vector.
pub proof fn lemma_scale2_bounds(a: V2s, k: int, ma: int, mk: int, m: int)
    requires
        0 <= ma,
        0 <= mk,
        a.in_bounds(ma),
        -mk <= k <= mk,
        m >= 0,
        ma * mk <= m * (SCALE as int),
    ensures
        a.scale_s(k).in_bounds(m),
{
    crate::fixed::lemma_fmul_abs(a.x, k, ma, mk, m);
    crate::fixed::lemma_fmul_abs(a.y, k, ma, mk, m);
}

} // verus!

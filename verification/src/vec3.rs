//! Three-component vectors over fixed-point scalars.

use vstd::prelude::*;
use crate::fixed::{
    SCALE, tdiv, fmul, sqrt_of, mul_fp, isqrt, div_trunc, lemma_sqrt_char, lemma_sqrt_monotonic,
    lemma_tdiv_bound, lemma_abs_mul_bound,
};

verus! {

/// Largest coordinate magnitude the vector operations accept: one million
/// units, far beyond any scene, but small enough that squared norms fit the
/// machine words.
pub const COORD_LIMIT: i64 = 2_000_000_000_000;

/// Does `v` fit an `i64`?
pub open spec fn fits_i64(v: int) -> bool {
    i64::MIN <= v <= i64::MAX
}

/// The component-wise sum, as a mathematical value.
pub open spec fn v_add(a: Vec3, b: Vec3) -> Vec3 {
    Vec3 { x: (a.x + b.x) as i64, y: (a.y + b.y) as i64, z: (a.z + b.z) as i64 }
}

/// The component-wise difference, as a mathematical value.
pub open spec fn v_sub(a: Vec3, b: Vec3) -> Vec3 {
    Vec3 { x: (a.x - b.x) as i64, y: (a.y - b.y) as i64, z: (a.z - b.z) as i64 }
}

/// The vector scaled by a fixed-point factor, as a mathematical value.
pub open spec fn v_scaled(a: Vec3, k: int) -> Vec3 {
    Vec3 { x: fmul(a.x as int, k) as i64, y: fmul(a.y as int, k) as i64, z: fmul(
        a.z as int,
        k,
    ) as i64 }
}

/// The fixed-point cross product, as a mathematical value.
pub open spec fn v_cross(a: Vec3, b: Vec3) -> Vec3 {
    Vec3 {
        x: (fmul(a.y as int, b.z as int) - fmul(a.z as int, b.y as int)) as i64,
        y: (fmul(a.z as int, b.x as int) - fmul(a.x as int, b.z as int)) as i64,
        z: (fmul(a.x as int, b.y as int) - fmul(a.y as int, b.x as int)) as i64,
    }
}

/// A point or direction in space, each coordinate in millionths of a unit.
#[derive(Clone, Copy, Debug, PartialEq, Eq, Structural)]
pub struct Vec3 {
    pub x: i64,
    pub y: i64,
    pub z: i64,
}

impl Vec3 {
    /// Every coordinate within `[-b, b]`.
    pub open spec fn bounded(self, b: int) -> bool {
        &&& -b <= self.x <= b
        &&& -b <= self.y <= b
        &&& -b <= self.z <= b
    }

    /// The squared Euclidean norm, in squared fixed-point steps.
    pub open spec fn norm2(self) -> int {
        self.x * self.x + self.y * self.y + self.z * self.z
    }

    /// The unit vector with `self`'s direction, scaled to `SCALE`.
    pub open spec fn normalized(self) -> Vec3
        recommends
            self.norm2() > 0,
    {
        let m = sqrt_of(self.norm2());
        Vec3 { x: tdiv(self.x * SCALE, m) as i64, y: tdiv(self.y * SCALE, m) as i64, z: tdiv(
            self.z * SCALE,
            m,
        ) as i64 }
    }

    pub fn new(x: i64, y: i64, z: i64) -> (r: Vec3)
        ensures
            r == (Vec3 { x, y, z }),
    {
        Vec3 { x, y, z }
    }

    /// The origin.
    pub fn zero() -> (r: Vec3)
        ensures
            r == (Vec3 { x: 0, y: 0, z: 0 }),
    {
        Vec3 { x: 0, y: 0, z: 0 }
    }

    /// Component-wise sum.
    pub fn add(self, o: Vec3) -> (r: Vec3)
        requires
            fits_i64(self.x + o.x),
            fits_i64(self.y + o.y),
            fits_i64(self.z + o.z),
        ensures
            r.x == self.x + o.x,
            r.y == self.y + o.y,
            r.z == self.z + o.z,
            r == v_add(self, o),
    {
        Vec3 { x: self.x + o.x, y: self.y + o.y, z: self.z + o.z }
    }

    /// Component-wise difference.
    pub fn sub(self, o: Vec3) -> (r: Vec3)
        requires
            fits_i64(self.x - o.x),
            fits_i64(self.y - o.y),
            fits_i64(self.z - o.z),
        ensures
            r.x == self.x - o.x,
            r.y == self.y - o.y,
            r.z == self.z - o.z,
            r == v_sub(self, o),
    {
        Vec3 { x: self.x - o.x, y: self.y - o.y, z: self.z - o.z }
    }

    /// The vector scaled by the fixed-point factor `k`.
    pub fn scaled(self, k: i64) -> (r: Vec3)
        requires
            -0x7fff_ffff_ffff_ffff <= self.x * k <= 0x7fff_ffff_ffff_ffff,
            -0x7fff_ffff_ffff_ffff <= self.y * k <= 0x7fff_ffff_ffff_ffff,
            -0x7fff_ffff_ffff_ffff <= self.z * k <= 0x7fff_ffff_ffff_ffff,
        ensures
            r.x == fmul(self.x as int, k as int),
            r.y == fmul(self.y as int, k as int),
            r.z == fmul(self.z as int, k as int),
            r == v_scaled(self, k as int),
    {
        Vec3 { x: mul_fp(self.x, k), y: mul_fp(self.y, k), z: mul_fp(self.z, k) }
    }

    /// The fixed-point cross product.
    pub fn cross(self, o: Vec3) -> (r: Vec3)
        requires
            self.bounded(4_000_000),
            o.bounded(4_000_000),
        ensures
            r.x == fmul(self.y as int, o.z as int) - fmul(self.z as int, o.y as int),
            r.y == fmul(self.z as int, o.x as int) - fmul(self.x as int, o.z as int),
            r.z == fmul(self.x as int, o.y as int) - fmul(self.y as int, o.x as int),
            r == v_cross(self, o),
    {
        proof {
            lemma_abs_mul_bound(self.y as int, o.z as int, 4_000_000, 4_000_000);
            lemma_abs_mul_bound(self.z as int, o.y as int, 4_000_000, 4_000_000);
            lemma_abs_mul_bound(self.z as int, o.x as int, 4_000_000, 4_000_000);
            lemma_abs_mul_bound(self.x as int, o.z as int, 4_000_000, 4_000_000);
            lemma_abs_mul_bound(self.x as int, o.y as int, 4_000_000, 4_000_000);
            lemma_abs_mul_bound(self.y as int, o.x as int, 4_000_000, 4_000_000);
            lemma_tdiv_bound(self.y * o.z, SCALE as int, 16_000_000_000_000);
            lemma_tdiv_bound(self.z * o.y, SCALE as int, 16_000_000_000_000);
            lemma_tdiv_bound(self.z * o.x, SCALE as int, 16_000_000_000_000);
            lemma_tdiv_bound(self.x * o.z, SCALE as int, 16_000_000_000_000);
            lemma_tdiv_bound(self.x * o.y, SCALE as int, 16_000_000_000_000);
            lemma_tdiv_bound(self.y * o.x, SCALE as int, 16_000_000_000_000);
        }
        Vec3 {
            x: mul_fp(self.y, o.z) - mul_fp(self.z, o.y),
            y: mul_fp(self.z, o.x) - mul_fp(self.x, o.z),
            z: mul_fp(self.x, o.y) - mul_fp(self.y, o.x),
        }
    }

    /// The squared norm, computed in wide arithmetic.
    pub fn norm2_wide(self) -> (r: u128)
        requires
            self.bounded(COORD_LIMIT as int),
        ensures
            r == self.norm2(),
    {
        proof {
            crate::fixed::lemma_square_nonneg(self.x as int);
            crate::fixed::lemma_square_nonneg(self.y as int);
            crate::fixed::lemma_square_nonneg(self.z as int);
            lemma_square_bound(self.x as int, COORD_LIMIT as int);
            lemma_square_bound(self.y as int, COORD_LIMIT as int);
            lemma_square_bound(self.z as int, COORD_LIMIT as int);
        }
        let xx: i128 = (self.x as i128) * (self.x as i128);
        let yy: i128 = (self.y as i128) * (self.y as i128);
        let zz: i128 = (self.z as i128) * (self.z as i128);
        (xx + yy + zz) as u128
    }

    /// The Euclidean length, rounded down to a whole fixed-point step.
    pub fn length(self) -> (r: i64)
        requires
            self.bounded(COORD_LIMIT as int),
        ensures
            r == sqrt_of(self.norm2()),
            r >= 0,
    {
        let n = self.norm2_wide();
        proof {
            lemma_square_bound(self.x as int, COORD_LIMIT as int);
            lemma_square_bound(self.y as int, COORD_LIMIT as int);
            lemma_square_bound(self.z as int, COORD_LIMIT as int);
            lemma_sqrt_char(n as int);
            lemma_sqrt_monotonic(n as int, 0x1000000000000000000000 - 1);
            assert(sqrt_of(0x1000000000000000000000 - 1) < 0x40000000000) by {
                crate::fixed::lemma_sqrt_unique(0x1000000000000000000000 - 1, 0x3ffffffffff);
            };
        }
        let r = isqrt(n);
        r as i64
    }

    /// The unit vector with `self`'s direction, each component within one.
    pub fn normalize(self) -> (r: Vec3)
        requires
            self.bounded(COORD_LIMIT as int),
            self.norm2() > 0,
        ensures
            r == self.normalized(),
            r.bounded(SCALE as int),
    {
        let m = self.length();
        proof {
            lemma_sqrt_char(self.norm2());
            assert(m >= 1) by {
                if sqrt_of(self.norm2()) == 0 {
                    assert((sqrt_of(self.norm2()) + 1) * (sqrt_of(self.norm2()) + 1) == 1)
                        by (nonlinear_arith)
                        requires
                            sqrt_of(self.norm2()) == 0,
                    ;
                }
            };
            lemma_square_le_norm(self);
            crate::fixed::lemma_unit_scale(self.x as int, self.norm2());
            crate::fixed::lemma_unit_scale(self.y as int, self.norm2());
            crate::fixed::lemma_unit_scale(self.z as int, self.norm2());
        }
        Vec3 {
            x: div_trunc(self.x * SCALE, m),
            y: div_trunc(self.y * SCALE, m),
            z: div_trunc(self.z * SCALE, m),
        }
    }
}

proof fn lemma_square_bound(a: int, b: int)
    requires
        -b <= a <= b,
        b >= 0,
    ensures
        a * a <= b * b,
{
    assert(a * a <= b * b) by (nonlinear_arith)
        requires
            -b <= a <= b,
            b >= 0,
    ;
}

/// Each coordinate's square is at most the squared norm.
proof fn lemma_square_le_norm(v: Vec3)
    ensures
        v.x * v.x <= v.norm2(),
        v.y * v.y <= v.norm2(),
        v.z * v.z <= v.norm2(),
{
    crate::fixed::lemma_square_nonneg(v.x as int);
    crate::fixed::lemma_square_nonneg(v.y as int);
    crate::fixed::lemma_square_nonneg(v.z as int);
}

} // verus!

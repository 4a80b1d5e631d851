//! Unit quaternions over fixed-point scalars, used for orientations.

use vstd::prelude::*;
use crate::fixed::{
    SCALE, tdiv, fmul, sqrt_of, mul_fp, isqrt, div_trunc, lemma_sqrt_char, lemma_sqrt_monotonic,
    lemma_sqrt_unique, lemma_tdiv_bound, lemma_abs_mul_bound,
};

verus! {

/// A rotation, stored as quaternion components in millionths.
#[derive(Clone, Copy, Debug, PartialEq, Eq, Structural)]
pub struct Quat {
    pub x: i64,
    pub y: i64,
    pub z: i64,
    pub w: i64,
}

impl Quat {
    /// Every component within `[-b, b]`.
    pub open spec fn bounded(self, b: int) -> bool {
        &&& -b <= self.x <= b
        &&& -b <= self.y <= b
        &&& -b <= self.z <= b
        &&& -b <= self.w <= b
    }

    /// The squared norm of the four components.
    pub open spec fn norm2(self) -> int {
        self.x * self.x + self.y * self.y + self.z * self.z + self.w * self.w
    }

    /// The Hamilton product of two quaternions, each term truncated as the
    /// executable multiplication truncates.
    pub open spec fn product(self, o: Quat) -> Quat {
        Quat {
            x: (fmul(self.w as int, o.x as int) + fmul(self.x as int, o.w as int) + fmul(
                self.y as int,
                o.z as int,
            ) - fmul(self.z as int, o.y as int)) as i64,
            y: (fmul(self.w as int, o.y as int) - fmul(self.x as int, o.z as int) + fmul(
                self.y as int,
                o.w as int,
            ) + fmul(self.z as int, o.x as int)) as i64,
            z: (fmul(self.w as int, o.z as int) + fmul(self.x as int, o.y as int) - fmul(
                self.y as int,
                o.x as int,
            ) + fmul(self.z as int, o.w as int)) as i64,
            w: (fmul(self.w as int, o.w as int) - fmul(self.x as int, o.x as int) - fmul(
                self.y as int,
                o.y as int,
            ) - fmul(self.z as int, o.z as int)) as i64,
        }
    }

    /// The quaternion rescaled to unit length.
    pub open spec fn normalized(self) -> Quat
        recommends
            self.norm2() > 0,
    {
        let m = sqrt_of(self.norm2());
        Quat {
            x: tdiv(self.x * SCALE, m) as i64,
            y: tdiv(self.y * SCALE, m) as i64,
            z: tdiv(self.z * SCALE, m) as i64,
            w: tdiv(self.w * SCALE, m) as i64,
        }
    }

    pub fn new(x: i64, y: i64, z: i64, w: i64) -> (r: Quat)
        ensures
            r == (Quat { x, y, z, w }),
    {
        Quat { x, y, z, w }
    }

    /// The rotation that does nothing.
    pub fn identity() -> (r: Quat)
        ensures
            r == (Quat { x: 0, y: 0, z: 0, w: SCALE }),
    {
        Quat { x: 0, y: 0, z: 0, w: SCALE }
    }

    /// The Hamilton product, left to right.
    pub fn mul(self, o: Quat) -> (r: Quat)
        requires
            self.bounded(2_000_000),
            o.bounded(2_000_000),
        ensures
            r == self.product(o),
            r.bounded(16_000_000),
    {
        proof {
            lemma_product_bounds(self, o);
        }
        let x = mul_fp(self.w, o.x) + mul_fp(self.x, o.w) + mul_fp(self.y, o.z) - mul_fp(
            self.z,
            o.y,
        );
        let y = mul_fp(self.w, o.y) - mul_fp(self.x, o.z) + mul_fp(self.y, o.w) + mul_fp(
            self.z,
            o.x,
        );
        let z = mul_fp(self.w, o.z) + mul_fp(self.x, o.y) - mul_fp(self.y, o.x) + mul_fp(
            self.z,
            o.w,
        );
        let w = mul_fp(self.w, o.w) - mul_fp(self.x, o.x) - mul_fp(self.y, o.y) - mul_fp(
            self.z,
            o.z,
        );
        Quat { x, y, z, w }
    }

    /// The squared norm, computed in wide arithmetic.
    pub fn norm2_wide(self) -> (r: u128)
        requires
            self.bounded(2_000_000_000_000),
        ensures
            r == self.norm2(),
    {
        proof {
            lemma_abs_mul_bound(self.x as int, self.x as int, 2_000_000_000_000, 2_000_000_000_000);
            lemma_abs_mul_bound(self.y as int, self.y as int, 2_000_000_000_000, 2_000_000_000_000);
            lemma_abs_mul_bound(self.z as int, self.z as int, 2_000_000_000_000, 2_000_000_000_000);
            lemma_abs_mul_bound(self.w as int, self.w as int, 2_000_000_000_000, 2_000_000_000_000);
            crate::fixed::lemma_square_nonneg(self.x as int);
            crate::fixed::lemma_square_nonneg(self.y as int);
            crate::fixed::lemma_square_nonneg(self.z as int);
            crate::fixed::lemma_square_nonneg(self.w as int);
        }
        let xx: i128 = (self.x as i128) * (self.x as i128);
        let yy: i128 = (self.y as i128) * (self.y as i128);
        let zz: i128 = (self.z as i128) * (self.z as i128);
        let ww: i128 = (self.w as i128) * (self.w as i128);
        (xx + yy + zz + ww) as u128
    }

    /// The quaternion rescaled to unit length; components come out within one.
    pub fn normalize(self) -> (r: Quat)
        requires
            self.bounded(2_000_000_000_000),
            self.norm2() > 0,
        ensures
            r == self.normalized(),
            r.bounded(SCALE as int),
    {
        let n = self.norm2_wide();
        proof {
            lemma_abs_mul_bound(self.x as int, self.x as int, 2_000_000_000_000, 2_000_000_000_000);
            lemma_abs_mul_bound(self.y as int, self.y as int, 2_000_000_000_000, 2_000_000_000_000);
            lemma_abs_mul_bound(self.z as int, self.z as int, 2_000_000_000_000, 2_000_000_000_000);
            lemma_abs_mul_bound(self.w as int, self.w as int, 2_000_000_000_000, 2_000_000_000_000);
            lemma_sqrt_char(n as int);
            lemma_sqrt_monotonic(n as int, 0x1000000000000000000000 - 1);
            assert(sqrt_of(0x1000000000000000000000 - 1) < 0x40000000000) by {
                lemma_sqrt_unique(0x1000000000000000000000 - 1, 0x3ffffffffff);
            };
            assert(sqrt_of(n as int) >= 1) by {
                if sqrt_of(n as int) == 0 {
                    assert((sqrt_of(n as int) + 1) * (sqrt_of(n as int) + 1) == 1)
                        by (nonlinear_arith)
                        requires
                            sqrt_of(n as int) == 0,
                    ;
                }
            };
            crate::fixed::lemma_square_nonneg(self.x as int);
            crate::fixed::lemma_square_nonneg(self.y as int);
            crate::fixed::lemma_square_nonneg(self.z as int);
            crate::fixed::lemma_square_nonneg(self.w as int);
            crate::fixed::lemma_unit_scale(self.x as int, self.norm2());
            crate::fixed::lemma_unit_scale(self.y as int, self.norm2());
            crate::fixed::lemma_unit_scale(self.z as int, self.norm2());
            crate::fixed::lemma_unit_scale(self.w as int, self.norm2());
        }
        let m = isqrt(n) as i64;
        Quat {
            x: div_trunc(self.x * SCALE, m),
            y: div_trunc(self.y * SCALE, m),
            z: div_trunc(self.z * SCALE, m),
            w: div_trunc(self.w * SCALE, m),
        }
    }
}

/// All sixteen pairwise products of two quaternions bounded by two units fit
/// comfortably, and each truncated term stays within four units.
proof fn lemma_product_bounds(a: Quat, b: Quat)
    requires
        a.bounded(2_000_000),
        b.bounded(2_000_000),
    ensures
        -4_000_000_000_000 <= a.w * b.x <= 4_000_000_000_000,
        -4_000_000_000_000 <= a.x * b.w <= 4_000_000_000_000,
        -4_000_000_000_000 <= a.y * b.z <= 4_000_000_000_000,
        -4_000_000_000_000 <= a.z * b.y <= 4_000_000_000_000,
        -4_000_000_000_000 <= a.w * b.y <= 4_000_000_000_000,
        -4_000_000_000_000 <= a.x * b.z <= 4_000_000_000_000,
        -4_000_000_000_000 <= a.y * b.w <= 4_000_000_000_000,
        -4_000_000_000_000 <= a.z * b.x <= 4_000_000_000_000,
        -4_000_000_000_000 <= a.w * b.z <= 4_000_000_000_000,
        -4_000_000_000_000 <= a.x * b.y <= 4_000_000_000_000,
        -4_000_000_000_000 <= a.y * b.x <= 4_000_000_000_000,
        -4_000_000_000_000 <= a.z * b.w <= 4_000_000_000_000,
        -4_000_000_000_000 <= a.w * b.w <= 4_000_000_000_000,
        -4_000_000_000_000 <= a.x * b.x <= 4_000_000_000_000,
        -4_000_000_000_000 <= a.y * b.y <= 4_000_000_000_000,
        -4_000_000_000_000 <= a.z * b.z <= 4_000_000_000_000,
        -4_000_000 <= fmul(a.w as int, b.x as int) <= 4_000_000,
        -4_000_000 <= fmul(a.x as int, b.w as int) <= 4_000_000,
        -4_000_000 <= fmul(a.y as int, b.z as int) <= 4_000_000,
        -4_000_000 <= fmul(a.z as int, b.y as int) <= 4_000_000,
        -4_000_000 <= fmul(a.w as int, b.y as int) <= 4_000_000,
        -4_000_000 <= fmul(a.x as int, b.z as int) <= 4_000_000,
        -4_000_000 <= fmul(a.y as int, b.w as int) <= 4_000_000,
        -4_000_000 <= fmul(a.z as int, b.x as int) <= 4_000_000,
        -4_000_000 <= fmul(a.w as int, b.z as int) <= 4_000_000,
        -4_000_000 <= fmul(a.x as int, b.y as int) <= 4_000_000,
        -4_000_000 <= fmul(a.y as int, b.x as int) <= 4_000_000,
        -4_000_000 <= fmul(a.z as int, b.w as int) <= 4_000_000,
        -4_000_000 <= fmul(a.w as int, b.w as int) <= 4_000_000,
        -4_000_000 <= fmul(a.x as int, b.x as int) <= 4_000_000,
        -4_000_000 <= fmul(a.y as int, b.y as int) <= 4_000_000,
        -4_000_000 <= fmul(a.z as int, b.z as int) <= 4_000_000,
{
    let bb = 2_000_000;
    lemma_abs_mul_bound(a.w as int, b.x as int, bb, bb);
    lemma_abs_mul_bound(a.x as int, b.w as int, bb, bb);
    lemma_abs_mul_bound(a.y as int, b.z as int, bb, bb);
    lemma_abs_mul_bound(a.z as int, b.y as int, bb, bb);
    lemma_abs_mul_bound(a.w as int, b.y as int, bb, bb);
    lemma_abs_mul_bound(a.x as int, b.z as int, bb, bb);
    lemma_abs_mul_bound(a.y as int, b.w as int, bb, bb);
    lemma_abs_mul_bound(a.z as int, b.x as int, bb, bb);
    lemma_abs_mul_bound(a.w as int, b.z as int, bb, bb);
    lemma_abs_mul_bound(a.x as int, b.y as int, bb, bb);
    lemma_abs_mul_bound(a.y as int, b.x as int, bb, bb);
    lemma_abs_mul_bound(a.z as int, b.w as int, bb, bb);
    lemma_abs_mul_bound(a.w as int, b.w as int, bb, bb);
    lemma_abs_mul_bound(a.x as int, b.x as int, bb, bb);
    lemma_abs_mul_bound(a.y as int, b.y as int, bb, bb);
    lemma_abs_mul_bound(a.z as int, b.z as int, bb, bb);
    lemma_tdiv_bound(a.w * b.x, SCALE as int, 4_000_000_000_000);
    lemma_tdiv_bound(a.x * b.w, SCALE as int, 4_000_000_000_000);
    lemma_tdiv_bound(a.y * b.z, SCALE as int, 4_000_000_000_000);
    lemma_tdiv_bound(a.z * b.y, SCALE as int, 4_000_000_000_000);
    lemma_tdiv_bound(a.w * b.y, SCALE as int, 4_000_000_000_000);
    lemma_tdiv_bound(a.x * b.z, SCALE as int, 4_000_000_000_000);
    lemma_tdiv_bound(a.y * b.w, SCALE as int, 4_000_000_000_000);
    lemma_tdiv_bound(a.z * b.x, SCALE as int, 4_000_000_000_000);
    lemma_tdiv_bound(a.w * b.z, SCALE as int, 4_000_000_000_000);
    lemma_tdiv_bound(a.x * b.y, SCALE as int, 4_000_000_000_000);
    lemma_tdiv_bound(a.y * b.x, SCALE as int, 4_000_000_000_000);
    lemma_tdiv_bound(a.z * b.w, SCALE as int, 4_000_000_000_000);
    lemma_tdiv_bound(a.w * b.w, SCALE as int, 4_000_000_000_000);
    lemma_tdiv_bound(a.x * b.x, SCALE as int, 4_000_000_000_000);
    lemma_tdiv_bound(a.y * b.y, SCALE as int, 4_000_000_000_000);
    lemma_tdiv_bound(a.z * b.z, SCALE as int, 4_000_000_000_000);
}

} // verus!

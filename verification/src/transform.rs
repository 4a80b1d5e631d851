//! Spatial transforms: position, orientation and scale, and the placement
//! matrix they compose into.

use vstd::prelude::*;
use crate::fixed::{
    SCALE, tdiv, fmul, mul_fp, div_trunc, div_trunc_wide, lemma_abs_mul_bound, lemma_tdiv_bound,
    lemma_tdiv_quotient_bound,
};
use crate::vec3::{Vec3, COORD_LIMIT, fits_i64};
use crate::quat::Quat;

verus! {

/// Entry magnitude accepted by the general matrix product.
pub const ENTRY_LIMIT: i64 = 3_000_000_000;

/// A 4 by 4 placement matrix in row-major fixed point: `mIJ` is row `I`,
/// column `J`.
#[derive(Clone, Copy, Debug, PartialEq, Eq, Structural)]
pub struct Mat4 {
    pub m00: i64,
    pub m01: i64,
    pub m02: i64,
    pub m03: i64,
    pub m10: i64,
    pub m11: i64,
    pub m12: i64,
    pub m13: i64,
    pub m20: i64,
    pub m21: i64,
    pub m22: i64,
    pub m23: i64,
    pub m30: i64,
    pub m31: i64,
    pub m32: i64,
    pub m33: i64,
}

impl Mat4 {
    /// Every entry within `[-b, b]`.
    pub open spec fn bounded(self, b: int) -> bool {
        &&& -b <= self.m00 <= b
        &&& -b <= self.m01 <= b
        &&& -b <= self.m02 <= b
        &&& -b <= self.m03 <= b
        &&& -b <= self.m10 <= b
        &&& -b <= self.m11 <= b
        &&& -b <= self.m12 <= b
        &&& -b <= self.m13 <= b
        &&& -b <= self.m20 <= b
        &&& -b <= self.m21 <= b
        &&& -b <= self.m22 <= b
        &&& -b <= self.m23 <= b
        &&& -b <= self.m30 <= b
        &&& -b <= self.m31 <= b
        &&& -b <= self.m32 <= b
        &&& -b <= self.m33 <= b
    }

    /// The identity placement.
    pub fn identity() -> (r: Mat4)
        ensures
            r.m00 == SCALE,
            r.m01 == 0,
            r.m02 == 0,
            r.m03 == 0,
            r.m10 == 0,
            r.m11 == SCALE,
            r.m12 == 0,
            r.m13 == 0,
            r.m20 == 0,
            r.m21 == 0,
            r.m22 == SCALE,
            r.m23 == 0,
            r.m30 == 0,
            r.m31 == 0,
            r.m32 == 0,
            r.m33 == SCALE,
    {
        Mat4 {
            m00: SCALE,
            m01: 0,
            m02: 0,
            m03: 0,
            m10: 0,
            m11: SCALE,
            m12: 0,
            m13: 0,
            m20: 0,
            m21: 0,
            m22: SCALE,
            m23: 0,
            m30: 0,
            m31: 0,
            m32: 0,
            m33: SCALE,
        }
    }

    /// The matrix product, each entry truncated once.
    pub fn multiply(self, o: Mat4) -> (r: Mat4)
        requires
            self.bounded(ENTRY_LIMIT as int),
            o.bounded(ENTRY_LIMIT as int),
        ensures
            r.m00 == tdiv(self.m00 * o.m00 + self.m01 * o.m10 + self.m02 * o.m20 + self.m03 * o.m30, SCALE as int),
            r.m01 == tdiv(self.m00 * o.m01 + self.m01 * o.m11 + self.m02 * o.m21 + self.m03 * o.m31, SCALE as int),
            r.m02 == tdiv(self.m00 * o.m02 + self.m01 * o.m12 + self.m02 * o.m22 + self.m03 * o.m32, SCALE as int),
            r.m03 == tdiv(self.m00 * o.m03 + self.m01 * o.m13 + self.m02 * o.m23 + self.m03 * o.m33, SCALE as int),
            r.m10 == tdiv(self.m10 * o.m00 + self.m11 * o.m10 + self.m12 * o.m20 + self.m13 * o.m30, SCALE as int),
            r.m11 == tdiv(self.m10 * o.m01 + self.m11 * o.m11 + self.m12 * o.m21 + self.m13 * o.m31, SCALE as int),
            r.m12 == tdiv(self.m10 * o.m02 + self.m11 * o.m12 + self.m12 * o.m22 + self.m13 * o.m32, SCALE as int),
            r.m13 == tdiv(self.m10 * o.m03 + self.m11 * o.m13 + self.m12 * o.m23 + self.m13 * o.m33, SCALE as int),
            r.m20 == tdiv(self.m20 * o.m00 + self.m21 * o.m10 + self.m22 * o.m20 + self.m23 * o.m30, SCALE as int),
            r.m21 == tdiv(self.m20 * o.m01 + self.m21 * o.m11 + self.m22 * o.m21 + self.m23 * o.m31, SCALE as int),
            r.m22 == tdiv(self.m20 * o.m02 + self.m21 * o.m12 + self.m22 * o.m22 + self.m23 * o.m32, SCALE as int),
            r.m23 == tdiv(self.m20 * o.m03 + self.m21 * o.m13 + self.m22 * o.m23 + self.m23 * o.m33, SCALE as int),
            r.m30 == tdiv(self.m30 * o.m00 + self.m31 * o.m10 + self.m32 * o.m20 + self.m33 * o.m30, SCALE as int),
            r.m31 == tdiv(self.m30 * o.m01 + self.m31 * o.m11 + self.m32 * o.m21 + self.m33 * o.m31, SCALE as int),
            r.m32 == tdiv(self.m30 * o.m02 + self.m31 * o.m12 + self.m32 * o.m22 + self.m33 * o.m32, SCALE as int),
            r.m33 == tdiv(self.m30 * o.m03 + self.m31 * o.m13 + self.m32 * o.m23 + self.m33 * o.m33, SCALE as int),
    {
        proof {
            lemma_abs_mul_bound(self.m00 as int, o.m00 as int, ENTRY_LIMIT as int, ENTRY_LIMIT as int);
            lemma_abs_mul_bound(self.m01 as int, o.m10 as int, ENTRY_LIMIT as int, ENTRY_LIMIT as int);
            lemma_abs_mul_bound(self.m02 as int, o.m20 as int, ENTRY_LIMIT as int, ENTRY_LIMIT as int);
            lemma_abs_mul_bound(self.m03 as int, o.m30 as int, ENTRY_LIMIT as int, ENTRY_LIMIT as int);
            lemma_abs_mul_bound(self.m00 as int, o.m01 as int, ENTRY_LIMIT as int, ENTRY_LIMIT as int);
            lemma_abs_mul_bound(self.m01 as int, o.m11 as int, ENTRY_LIMIT as int, ENTRY_LIMIT as int);
            lemma_abs_mul_bound(self.m02 as int, o.m21 as int, ENTRY_LIMIT as int, ENTRY_LIMIT as int);
            lemma_abs_mul_bound(self.m03 as int, o.m31 as int, ENTRY_LIMIT as int, ENTRY_LIMIT as int);
            lemma_abs_mul_bound(self.m00 as int, o.m02 as int, ENTRY_LIMIT as int, ENTRY_LIMIT as int);
            lemma_abs_mul_bound(self.m01 as int, o.m12 as int, ENTRY_LIMIT as int, ENTRY_LIMIT as int);
            lemma_abs_mul_bound(self.m02 as int, o.m22 as int, ENTRY_LIMIT as int, ENTRY_LIMIT as int);
            lemma_abs_mul_bound(self.m03 as int, o.m32 as int, ENTRY_LIMIT as int, ENTRY_LIMIT as int);
            lemma_abs_mul_bound(self.m00 as int, o.m03 as int, ENTRY_LIMIT as int, ENTRY_LIMIT as int);
            lemma_abs_mul_bound(self.m01 as int, o.m13 as int, ENTRY_LIMIT as int, ENTRY_LIMIT as int);
            lemma_abs_mul_bound(self.m02 as int, o.m23 as int, ENTRY_LIMIT as int, ENTRY_LIMIT as int);
            lemma_abs_mul_bound(self.m03 as int, o.m33 as int, ENTRY_LIMIT as int, ENTRY_LIMIT as int);
            lemma_abs_mul_bound(self.m10 as int, o.m00 as int, ENTRY_LIMIT as int, ENTRY_LIMIT as int);
            lemma_abs_mul_bound(self.m11 as int, o.m10 as int, ENTRY_LIMIT as int, ENTRY_LIMIT as int);
            lemma_abs_mul_bound(self.m12 as int, o.m20 as int, ENTRY_LIMIT as int, ENTRY_LIMIT as int);
            lemma_abs_mul_bound(self.m13 as int, o.m30 as int, ENTRY_LIMIT as int, ENTRY_LIMIT as int);
            lemma_abs_mul_bound(self.m10 as int, o.m01 as int, ENTRY_LIMIT as int, ENTRY_LIMIT as int);
            lemma_abs_mul_bound(self.m11 as int, o.m11 as int, ENTRY_LIMIT as int, ENTRY_LIMIT as int);
            lemma_abs_mul_bound(self.m12 as int, o.m21 as int, ENTRY_LIMIT as int, ENTRY_LIMIT as int);
            lemma_abs_mul_bound(self.m13 as int, o.m31 as int, ENTRY_LIMIT as int, ENTRY_LIMIT as int);
            lemma_abs_mul_bound(self.m10 as int, o.m02 as int, ENTRY_LIMIT as int, ENTRY_LIMIT as int);
            lemma_abs_mul_bound(self.m11 as int, o.m12 as int, ENTRY_LIMIT as int, ENTRY_LIMIT as int);
            lemma_abs_mul_bound(self.m12 as int, o.m22 as int, ENTRY_LIMIT as int, ENTRY_LIMIT as int);
            lemma_abs_mul_bound(self.m13 as int, o.m32 as int, ENTRY_LIMIT as int, ENTRY_LIMIT as int);
            lemma_abs_mul_bound(self.m10 as int, o.m03 as int, ENTRY_LIMIT as int, ENTRY_LIMIT as int);
            lemma_abs_mul_bound(self.m11 as int, o.m13 as int, ENTRY_LIMIT as int, ENTRY_LIMIT as int);
            lemma_abs_mul_bound(self.m12 as int, o.m23 as int, ENTRY_LIMIT as int, ENTRY_LIMIT as int);
            lemma_abs_mul_bound(self.m13 as int, o.m33 as int, ENTRY_LIMIT as int, ENTRY_LIMIT as int);
            lemma_abs_mul_bound(self.m20 as int, o.m00 as int, ENTRY_LIMIT as int, ENTRY_LIMIT as int);
            lemma_abs_mul_bound(self.m21 as int, o.m10 as int, ENTRY_LIMIT as int, ENTRY_LIMIT as int);
            lemma_abs_mul_bound(self.m22 as int, o.m20 as int, ENTRY_LIMIT as int, ENTRY_LIMIT as int);
            lemma_abs_mul_bound(self.m23 as int, o.m30 as int, ENTRY_LIMIT as int, ENTRY_LIMIT as int);
            lemma_abs_mul_bound(self.m20 as int, o.m01 as int, ENTRY_LIMIT as int, ENTRY_LIMIT as int);
            lemma_abs_mul_bound(self.m21 as int, o.m11 as int, ENTRY_LIMIT as int, ENTRY_LIMIT as int);
            lemma_abs_mul_bound(self.m22 as int, o.m21 as int, ENTRY_LIMIT as int, ENTRY_LIMIT as int);
            lemma_abs_mul_bound(self.m23 as int, o.m31 as int, ENTRY_LIMIT as int, ENTRY_LIMIT as int);
            lemma_abs_mul_bound(self.m20 as int, o.m02 as int, ENTRY_LIMIT as int, ENTRY_LIMIT as int);
            lemma_abs_mul_bound(self.m21 as int, o.m12 as int, ENTRY_LIMIT as int, ENTRY_LIMIT as int);
            lemma_abs_mul_bound(self.m22 as int, o.m22 as int, ENTRY_LIMIT as int, ENTRY_LIMIT as int);
            lemma_abs_mul_bound(self.m23 as int, o.m32 as int, ENTRY_LIMIT as int, ENTRY_LIMIT as int);
            lemma_abs_mul_bound(self.m20 as int, o.m03 as int, ENTRY_LIMIT as int, ENTRY_LIMIT as int);
            lemma_abs_mul_bound(self.m21 as int, o.m13 as int, ENTRY_LIMIT as int, ENTRY_LIMIT as int);
            lemma_abs_mul_bound(self.m22 as int, o.m23 as int, ENTRY_LIMIT as int, ENTRY_LIMIT as int);
            lemma_abs_mul_bound(self.m23 as int, o.m33 as int, ENTRY_LIMIT as int, ENTRY_LIMIT as int);
            lemma_abs_mul_bound(self.m30 as int, o.m00 as int, ENTRY_LIMIT as int, ENTRY_LIMIT as int);
            lemma_abs_mul_bound(self.m31 as int, o.m10 as int, ENTRY_LIMIT as int, ENTRY_LIMIT as int);
            lemma_abs_mul_bound(self.m32 as int, o.m20 as int, ENTRY_LIMIT as int, ENTRY_LIMIT as int);
            lemma_abs_mul_bound(self.m33 as int, o.m30 as int, ENTRY_LIMIT as int, ENTRY_LIMIT as int);
            lemma_abs_mul_bound(self.m30 as int, o.m01 as int, ENTRY_LIMIT as int, ENTRY_LIMIT as int);
            lemma_abs_mul_bound(self.m31 as int, o.m11 as int, ENTRY_LIMIT as int, ENTRY_LIMIT as int);
            lemma_abs_mul_bound(self.m32 as int, o.m21 as int, ENTRY_LIMIT as int, ENTRY_LIMIT as int);
            lemma_abs_mul_bound(self.m33 as int, o.m31 as int, ENTRY_LIMIT as int, ENTRY_LIMIT as int);
            lemma_abs_mul_bound(self.m30 as int, o.m02 as int, ENTRY_LIMIT as int, ENTRY_LIMIT as int);
            lemma_abs_mul_bound(self.m31 as int, o.m12 as int, ENTRY_LIMIT as int, ENTRY_LIMIT as int);
            lemma_abs_mul_bound(self.m32 as int, o.m22 as int, ENTRY_LIMIT as int, ENTRY_LIMIT as int);
            lemma_abs_mul_bound(self.m33 as int, o.m32 as int, ENTRY_LIMIT as int, ENTRY_LIMIT as int);
            lemma_abs_mul_bound(self.m30 as int, o.m03 as int, ENTRY_LIMIT as int, ENTRY_LIMIT as int);
            lemma_abs_mul_bound(self.m31 as int, o.m13 as int, ENTRY_LIMIT as int, ENTRY_LIMIT as int);
            lemma_abs_mul_bound(self.m32 as int, o.m23 as int, ENTRY_LIMIT as int, ENTRY_LIMIT as int);
            lemma_abs_mul_bound(self.m33 as int, o.m33 as int, ENTRY_LIMIT as int, ENTRY_LIMIT as int);
        }
        let s00: i128 = (self.m00 as i128) * (o.m00 as i128) + (self.m01 as i128) * (o.m10 as i128) + (self.m02 as i128) * (o.m20 as i128) + (self.m03 as i128) * (o.m30 as i128);
        let s01: i128 = (self.m00 as i128) * (o.m01 as i128) + (self.m01 as i128) * (o.m11 as i128) + (self.m02 as i128) * (o.m21 as i128) + (self.m03 as i128) * (o.m31 as i128);
        let s02: i128 = (self.m00 as i128) * (o.m02 as i128) + (self.m01 as i128) * (o.m12 as i128) + (self.m02 as i128) * (o.m22 as i128) + (self.m03 as i128) * (o.m32 as i128);
        let s03: i128 = (self.m00 as i128) * (o.m03 as i128) + (self.m01 as i128) * (o.m13 as i128) + (self.m02 as i128) * (o.m23 as i128) + (self.m03 as i128) * (o.m33 as i128);
        let s10: i128 = (self.m10 as i128) * (o.m00 as i128) + (self.m11 as i128) * (o.m10 as i128) + (self.m12 as i128) * (o.m20 as i128) + (self.m13 as i128) * (o.m30 as i128);
        let s11: i128 = (self.m10 as i128) * (o.m01 as i128) + (self.m11 as i128) * (o.m11 as i128) + (self.m12 as i128) * (o.m21 as i128) + (self.m13 as i128) * (o.m31 as i128);
        let s12: i128 = (self.m10 as i128) * (o.m02 as i128) + (self.m11 as i128) * (o.m12 as i128) + (self.m12 as i128) * (o.m22 as i128) + (self.m13 as i128) * (o.m32 as i128);
        let s13: i128 = (self.m10 as i128) * (o.m03 as i128) + (self.m11 as i128) * (o.m13 as i128) + (self.m12 as i128) * (o.m23 as i128) + (self.m13 as i128) * (o.m33 as i128);
        let s20: i128 = (self.m20 as i128) * (o.m00 as i128) + (self.m21 as i128) * (o.m10 as i128) + (self.m22 as i128) * (o.m20 as i128) + (self.m23 as i128) * (o.m30 as i128);
        let s21: i128 = (self.m20 as i128) * (o.m01 as i128) + (self.m21 as i128) * (o.m11 as i128) + (self.m22 as i128) * (o.m21 as i128) + (self.m23 as i128) * (o.m31 as i128);
        let s22: i128 = (self.m20 as i128) * (o.m02 as i128) + (self.m21 as i128) * (o.m12 as i128) + (self.m22 as i128) * (o.m22 as i128) + (self.m23 as i128) * (o.m32 as i128);
        let s23: i128 = (self.m20 as i128) * (o.m03 as i128) + (self.m21 as i128) * (o.m13 as i128) + (self.m22 as i128) * (o.m23 as i128) + (self.m23 as i128) * (o.m33 as i128);
        let s30: i128 = (self.m30 as i128) * (o.m00 as i128) + (self.m31 as i128) * (o.m10 as i128) + (self.m32 as i128) * (o.m20 as i128) + (self.m33 as i128) * (o.m30 as i128);
        let s31: i128 = (self.m30 as i128) * (o.m01 as i128) + (self.m31 as i128) * (o.m11 as i128) + (self.m32 as i128) * (o.m21 as i128) + (self.m33 as i128) * (o.m31 as i128);
        let s32: i128 = (self.m30 as i128) * (o.m02 as i128) + (self.m31 as i128) * (o.m12 as i128) + (self.m32 as i128) * (o.m22 as i128) + (self.m33 as i128) * (o.m32 as i128);
        let s33: i128 = (self.m30 as i128) * (o.m03 as i128) + (self.m31 as i128) * (o.m13 as i128) + (self.m32 as i128) * (o.m23 as i128) + (self.m33 as i128) * (o.m33 as i128);
        Mat4 {
            m00: div_trunc_wide(s00, SCALE),
            m01: div_trunc_wide(s01, SCALE),
            m02: div_trunc_wide(s02, SCALE),
            m03: div_trunc_wide(s03, SCALE),
            m10: div_trunc_wide(s10, SCALE),
            m11: div_trunc_wide(s11, SCALE),
            m12: div_trunc_wide(s12, SCALE),
            m13: div_trunc_wide(s13, SCALE),
            m20: div_trunc_wide(s20, SCALE),
            m21: div_trunc_wide(s21, SCALE),
            m22: div_trunc_wide(s22, SCALE),
            m23: div_trunc_wide(s23, SCALE),
            m30: div_trunc_wide(s30, SCALE),
            m31: div_trunc_wide(s31, SCALE),
            m32: div_trunc_wide(s32, SCALE),
            m33: div_trunc_wide(s33, SCALE),
        }
    }

    /// Applies the placement to a point (homogeneous coordinate one).
    pub fn transform_point3(self, p: Vec3) -> (r: Vec3)
        requires
            self.bounded(ENTRY_LIMIT as int),
            p.bounded(COORD_LIMIT as int),
        ensures
            r.x == tdiv(self.m00 * p.x + self.m01 * p.y + self.m02 * p.z, SCALE as int) + self.m03,
            r.y == tdiv(self.m10 * p.x + self.m11 * p.y + self.m12 * p.z, SCALE as int) + self.m13,
            r.z == tdiv(self.m20 * p.x + self.m21 * p.y + self.m22 * p.z, SCALE as int) + self.m23,
    {
        proof {
            lemma_abs_mul_bound(self.m00 as int, p.x as int, ENTRY_LIMIT as int, COORD_LIMIT as int);
            lemma_abs_mul_bound(self.m01 as int, p.y as int, ENTRY_LIMIT as int, COORD_LIMIT as int);
            lemma_abs_mul_bound(self.m02 as int, p.z as int, ENTRY_LIMIT as int, COORD_LIMIT as int);
            lemma_abs_mul_bound(self.m10 as int, p.x as int, ENTRY_LIMIT as int, COORD_LIMIT as int);
            lemma_abs_mul_bound(self.m11 as int, p.y as int, ENTRY_LIMIT as int, COORD_LIMIT as int);
            lemma_abs_mul_bound(self.m12 as int, p.z as int, ENTRY_LIMIT as int, COORD_LIMIT as int);
            lemma_abs_mul_bound(self.m20 as int, p.x as int, ENTRY_LIMIT as int, COORD_LIMIT as int);
            lemma_abs_mul_bound(self.m21 as int, p.y as int, ENTRY_LIMIT as int, COORD_LIMIT as int);
            lemma_abs_mul_bound(self.m22 as int, p.z as int, ENTRY_LIMIT as int, COORD_LIMIT as int);
            lemma_tdiv_quotient_bound(self.m00 * p.x + self.m01 * p.y + self.m02 * p.z, SCALE as int, 18_000_000_000_000_000);
            lemma_tdiv_quotient_bound(self.m10 * p.x + self.m11 * p.y + self.m12 * p.z, SCALE as int, 18_000_000_000_000_000);
            lemma_tdiv_quotient_bound(self.m20 * p.x + self.m21 * p.y + self.m22 * p.z, SCALE as int, 18_000_000_000_000_000);
        }
        let s0: i128 = (self.m00 as i128) * (p.x as i128) + (self.m01 as i128) * (p.y as i128) + (self.m02 as i128) * (p.z as i128);
        let s1: i128 = (self.m10 as i128) * (p.x as i128) + (self.m11 as i128) * (p.y as i128) + (self.m12 as i128) * (p.z as i128);
        let s2: i128 = (self.m20 as i128) * (p.x as i128) + (self.m21 as i128) * (p.y as i128) + (self.m22 as i128) * (p.z as i128);
        Vec3 {
            x: div_trunc_wide(s0, SCALE) + self.m03,
            y: div_trunc_wide(s1, SCALE) + self.m13,
            z: div_trunc_wide(s2, SCALE) + self.m23,
        }
    }
}

/// Rotation-matrix entries of a unit quaternion, in fixed point.
pub open spec fn rot_m00(q: Quat) -> int {
    (SCALE as int) - tdiv(2 * (q.y * q.y + q.z * q.z), SCALE as int)
}

pub open spec fn rot_m01(q: Quat) -> int {
    tdiv(2 * (q.x * q.y - q.w * q.z), SCALE as int)
}

pub open spec fn rot_m02(q: Quat) -> int {
    tdiv(2 * (q.x * q.z + q.w * q.y), SCALE as int)
}

pub open spec fn rot_m10(q: Quat) -> int {
    tdiv(2 * (q.x * q.y + q.w * q.z), SCALE as int)
}

pub open spec fn rot_m11(q: Quat) -> int {
    (SCALE as int) - tdiv(2 * (q.x * q.x + q.z * q.z), SCALE as int)
}

pub open spec fn rot_m12(q: Quat) -> int {
    tdiv(2 * (q.y * q.z - q.w * q.x), SCALE as int)
}

pub open spec fn rot_m20(q: Quat) -> int {
    tdiv(2 * (q.x * q.z - q.w * q.y), SCALE as int)
}

pub open spec fn rot_m21(q: Quat) -> int {
    tdiv(2 * (q.y * q.z + q.w * q.x), SCALE as int)
}

pub open spec fn rot_m22(q: Quat) -> int {
    (SCALE as int) - tdiv(2 * (q.x * q.x + q.y * q.y), SCALE as int)
}

impl Mat4 {
    /// The rotation matrix of a unit quaternion.
    pub fn from_quat(q: Quat) -> (r: Mat4)
        requires
            q.bounded(SCALE as int),
        ensures
            r.m00 == rot_m00(q),
            r.m01 == rot_m01(q),
            r.m02 == rot_m02(q),
            r.m10 == rot_m10(q),
            r.m11 == rot_m11(q),
            r.m12 == rot_m12(q),
            r.m20 == rot_m20(q),
            r.m21 == rot_m21(q),
            r.m22 == rot_m22(q),
            r.m03 == 0,
            r.m13 == 0,
            r.m23 == 0,
            r.m30 == 0,
            r.m31 == 0,
            r.m32 == 0,
            r.m33 == SCALE,
            r.bounded(4_000_000),
    {
        proof {
            lemma_abs_mul_bound(q.y as int, q.y as int, SCALE as int, SCALE as int);
            lemma_abs_mul_bound(q.z as int, q.z as int, SCALE as int, SCALE as int);
            lemma_abs_mul_bound(q.x as int, q.x as int, SCALE as int, SCALE as int);
            lemma_abs_mul_bound(q.x as int, q.y as int, SCALE as int, SCALE as int);
            lemma_abs_mul_bound(q.w as int, q.z as int, SCALE as int, SCALE as int);
            lemma_abs_mul_bound(q.x as int, q.z as int, SCALE as int, SCALE as int);
            lemma_abs_mul_bound(q.w as int, q.y as int, SCALE as int, SCALE as int);
            lemma_abs_mul_bound(q.y as int, q.z as int, SCALE as int, SCALE as int);
            lemma_abs_mul_bound(q.w as int, q.x as int, SCALE as int, SCALE as int);
            lemma_tdiv_bound(2 * (q.y * q.y + q.z * q.z), SCALE as int, 4_000_000_000_000);
            lemma_tdiv_bound(2 * (q.x * q.x + q.z * q.z), SCALE as int, 4_000_000_000_000);
            lemma_tdiv_bound(2 * (q.x * q.x + q.y * q.y), SCALE as int, 4_000_000_000_000);
            lemma_tdiv_bound(2 * (q.x * q.y - q.w * q.z), SCALE as int, 4_000_000_000_000);
            lemma_tdiv_bound(2 * (q.x * q.z + q.w * q.y), SCALE as int, 4_000_000_000_000);
            lemma_tdiv_bound(2 * (q.x * q.y + q.w * q.z), SCALE as int, 4_000_000_000_000);
            lemma_tdiv_bound(2 * (q.y * q.z - q.w * q.x), SCALE as int, 4_000_000_000_000);
            lemma_tdiv_bound(2 * (q.x * q.z - q.w * q.y), SCALE as int, 4_000_000_000_000);
            lemma_tdiv_bound(2 * (q.y * q.z + q.w * q.x), SCALE as int, 4_000_000_000_000);
            lemma_tdiv_quotient_bound(2 * (q.y * q.y + q.z * q.z), SCALE as int, 4_000_000);
            lemma_tdiv_quotient_bound(2 * (q.x * q.x + q.z * q.z), SCALE as int, 4_000_000);
            lemma_tdiv_quotient_bound(2 * (q.x * q.x + q.y * q.y), SCALE as int, 4_000_000);
            lemma_tdiv_quotient_bound(2 * (q.x * q.y - q.w * q.z), SCALE as int, 4_000_000);
            lemma_tdiv_quotient_bound(2 * (q.x * q.z + q.w * q.y), SCALE as int, 4_000_000);
            lemma_tdiv_quotient_bound(2 * (q.x * q.y + q.w * q.z), SCALE as int, 4_000_000);
            lemma_tdiv_quotient_bound(2 * (q.y * q.z - q.w * q.x), SCALE as int, 4_000_000);
            lemma_tdiv_quotient_bound(2 * (q.x * q.z - q.w * q.y), SCALE as int, 4_000_000);
            lemma_tdiv_quotient_bound(2 * (q.y * q.z + q.w * q.x), SCALE as int, 4_000_000);
            crate::fixed::lemma_square_nonneg(q.x as int);
            crate::fixed::lemma_square_nonneg(q.y as int);
            crate::fixed::lemma_square_nonneg(q.z as int);
            assert(tdiv(2 * (q.y * q.y + q.z * q.z), SCALE as int) >= 0) by {
                vstd::arithmetic::div_mod::lemma_div_pos_is_pos(
                    2 * (q.y * q.y + q.z * q.z),
                    SCALE as int,
                );
            };
            assert(tdiv(2 * (q.x * q.x + q.z * q.z), SCALE as int) >= 0) by {
                vstd::arithmetic::div_mod::lemma_div_pos_is_pos(
                    2 * (q.x * q.x + q.z * q.z),
                    SCALE as int,
                );
            };
            assert(tdiv(2 * (q.x * q.x + q.y * q.y), SCALE as int) >= 0) by {
                vstd::arithmetic::div_mod::lemma_div_pos_is_pos(
                    2 * (q.x * q.x + q.y * q.y),
                    SCALE as int,
                );
            };
        }
        let m00 = SCALE - div_trunc(2 * (q.y * q.y + q.z * q.z), SCALE);
        let m01 = div_trunc(2 * (q.x * q.y - q.w * q.z), SCALE);
        let m02 = div_trunc(2 * (q.x * q.z + q.w * q.y), SCALE);
        let m10 = div_trunc(2 * (q.x * q.y + q.w * q.z), SCALE);
        let m11 = SCALE - div_trunc(2 * (q.x * q.x + q.z * q.z), SCALE);
        let m12 = div_trunc(2 * (q.y * q.z - q.w * q.x), SCALE);
        let m20 = div_trunc(2 * (q.x * q.z - q.w * q.y), SCALE);
        let m21 = div_trunc(2 * (q.y * q.z + q.w * q.x), SCALE);
        let m22 = SCALE - div_trunc(2 * (q.x * q.x + q.y * q.y), SCALE);
        Mat4 {
            m00, m01, m02, m03: 0,
            m10, m11, m12, m13: 0,
            m20, m21, m22, m23: 0,
            m30: 0, m31: 0, m32: 0, m33: SCALE,
        }
    }

    /// The translation matrix of an offset.
    pub fn from_translation(t: Vec3) -> (r: Mat4)
        ensures
            r.m00 == SCALE,
            r.m11 == SCALE,
            r.m22 == SCALE,
            r.m33 == SCALE,
            r.m03 == t.x,
            r.m13 == t.y,
            r.m23 == t.z,
            r.m01 == 0,
            r.m02 == 0,
            r.m10 == 0,
            r.m12 == 0,
            r.m20 == 0,
            r.m21 == 0,
            r.m30 == 0,
            r.m31 == 0,
            r.m32 == 0,
    {
        Mat4 {
            m00: SCALE, m01: 0, m02: 0, m03: t.x,
            m10: 0, m11: SCALE, m12: 0, m13: t.y,
            m20: 0, m21: 0, m22: SCALE, m23: t.z,
            m30: 0, m31: 0, m32: 0, m33: SCALE,
        }
    }

    /// The scaling matrix of per-axis factors.
    pub fn from_scale(s: Vec3) -> (r: Mat4)
        ensures
            r.m00 == s.x,
            r.m11 == s.y,
            r.m22 == s.z,
            r.m33 == SCALE,
            r.m01 == 0,
            r.m02 == 0,
            r.m03 == 0,
            r.m10 == 0,
            r.m12 == 0,
            r.m13 == 0,
            r.m20 == 0,
            r.m21 == 0,
            r.m23 == 0,
            r.m30 == 0,
            r.m31 == 0,
            r.m32 == 0,
    {
        Mat4 {
            m00: s.x, m01: 0, m02: 0, m03: 0,
            m10: 0, m11: s.y, m12: 0, m13: 0,
            m20: 0, m21: 0, m22: s.z, m23: 0,
            m30: 0, m31: 0, m32: 0, m33: SCALE,
        }
    }
}

/// An object's placement: where it sits, how it is turned, how it is
/// stretched.
#[derive(Clone, Copy, Debug, PartialEq, Eq, Structural)]
pub struct Transform {
    pub position: Vec3,
    pub rotation: Quat,
    pub scale: Vec3,
}

impl Default for Transform {
    /// The resting placement: at the origin, unturned, with zero stretch.
    fn default() -> (r: Transform)
        ensures
            r.position == (Vec3 { x: 0, y: 0, z: 0 }),
            r.rotation == (Quat { x: 0, y: 0, z: 0, w: SCALE }),
            r.scale == (Vec3 { x: 0, y: 0, z: 0 }),
    {
        Transform {
            position: Vec3 { x: 0, y: 0, z: 0 },
            rotation: Quat { x: 0, y: 0, z: 0, w: SCALE },
            scale: Vec3 { x: 0, y: 0, z: 0 },
        }
    }
}

impl Transform {
    pub fn new(position: Vec3, rotation: Quat, scale: Vec3) -> (r: Transform)
        ensures
            r.position == position,
            r.rotation == rotation,
            r.scale == scale,
    {
        Transform { position, rotation, scale }
    }

    /// Moves the position by `delta`; orientation and scale are untouched.
    pub fn translate(&mut self, delta: Vec3)
        requires
            fits_i64(old(self).position.x + delta.x),
            fits_i64(old(self).position.y + delta.y),
            fits_i64(old(self).position.z + delta.z),
        ensures
            final(self).position.x == old(self).position.x + delta.x,
            final(self).position.y == old(self).position.y + delta.y,
            final(self).position.z == old(self).position.z + delta.z,
            final(self).rotation == old(self).rotation,
            final(self).scale == old(self).scale,
    {
        self.position = self.position.add(delta);
    }

    /// Post-multiplies the orientation by `delta` and renormalizes, so the
    /// rotation stays a unit quaternion.  A degenerate product (possible only
    /// for non-unit inputs) leaves the orientation unchanged.
    pub fn rotate(&mut self, delta: Quat)
        requires
            old(self).rotation.bounded(2_000_000),
            delta.bounded(2_000_000),
        ensures
            old(self).rotation.product(delta).norm2() > 0 ==> final(self).rotation == old(
                self,
            ).rotation.product(delta).normalized(),
            old(self).rotation.product(delta).norm2() == 0 ==> final(self).rotation == old(
                self,
            ).rotation,
            old(self).rotation.product(delta).norm2() > 0 ==> final(self).rotation.bounded(
                SCALE as int,
            ),
            final(self).position == old(self).position,
            final(self).scale == old(self).scale,
    {
        let p = self.rotation.mul(delta);
        let n = p.norm2_wide();
        if n > 0 {
            self.rotation = p.normalize();
        }
    }

    /// Multiplies the scale component-wise; position and orientation are
    /// untouched.
    pub fn scale(&mut self, delta: Vec3)
        requires
            -0x7fff_ffff_ffff_ffff <= old(self).scale.x * delta.x <= 0x7fff_ffff_ffff_ffff,
            -0x7fff_ffff_ffff_ffff <= old(self).scale.y * delta.y <= 0x7fff_ffff_ffff_ffff,
            -0x7fff_ffff_ffff_ffff <= old(self).scale.z * delta.z <= 0x7fff_ffff_ffff_ffff,
        ensures
            final(self).scale.x == fmul(old(self).scale.x as int, delta.x as int),
            final(self).scale.y == fmul(old(self).scale.y as int, delta.y as int),
            final(self).scale.z == fmul(old(self).scale.z as int, delta.z as int),
            final(self).position == old(self).position,
            final(self).rotation == old(self).rotation,
    {
        self.scale = Vec3 {
            x: mul_fp(self.scale.x, delta.x),
            y: mul_fp(self.scale.y, delta.y),
            z: mul_fp(self.scale.z, delta.z),
        };
    }

    /// The composed placement matrix: translation times rotation times
    /// scale, never stored, always derived.
    pub fn get_matrix(&self) -> (r: Mat4)
        requires
            self.rotation.bounded(SCALE as int),
            self.scale.bounded(COORD_LIMIT as int),
        ensures
            r.m00 == tdiv(rot_m00(self.rotation) * self.scale.x, SCALE as int),
            r.m01 == tdiv(rot_m01(self.rotation) * self.scale.y, SCALE as int),
            r.m02 == tdiv(rot_m02(self.rotation) * self.scale.z, SCALE as int),
            r.m10 == tdiv(rot_m10(self.rotation) * self.scale.x, SCALE as int),
            r.m11 == tdiv(rot_m11(self.rotation) * self.scale.y, SCALE as int),
            r.m12 == tdiv(rot_m12(self.rotation) * self.scale.z, SCALE as int),
            r.m20 == tdiv(rot_m20(self.rotation) * self.scale.x, SCALE as int),
            r.m21 == tdiv(rot_m21(self.rotation) * self.scale.y, SCALE as int),
            r.m22 == tdiv(rot_m22(self.rotation) * self.scale.z, SCALE as int),
            r.m03 == self.position.x,
            r.m13 == self.position.y,
            r.m23 == self.position.z,
            r.m30 == 0,
            r.m31 == 0,
            r.m32 == 0,
            r.m33 == SCALE,
    {
        let rot = Mat4::from_quat(self.rotation);
        proof {
            lemma_abs_mul_bound(rot_m00(self.rotation), self.scale.x as int, 4_000_000, COORD_LIMIT as int);
            lemma_abs_mul_bound(rot_m01(self.rotation), self.scale.y as int, 4_000_000, COORD_LIMIT as int);
            lemma_abs_mul_bound(rot_m02(self.rotation), self.scale.z as int, 4_000_000, COORD_LIMIT as int);
            lemma_abs_mul_bound(rot_m10(self.rotation), self.scale.x as int, 4_000_000, COORD_LIMIT as int);
            lemma_abs_mul_bound(rot_m11(self.rotation), self.scale.y as int, 4_000_000, COORD_LIMIT as int);
            lemma_abs_mul_bound(rot_m12(self.rotation), self.scale.z as int, 4_000_000, COORD_LIMIT as int);
            lemma_abs_mul_bound(rot_m20(self.rotation), self.scale.x as int, 4_000_000, COORD_LIMIT as int);
            lemma_abs_mul_bound(rot_m21(self.rotation), self.scale.y as int, 4_000_000, COORD_LIMIT as int);
            lemma_abs_mul_bound(rot_m22(self.rotation), self.scale.z as int, 4_000_000, COORD_LIMIT as int);
        }
        Mat4 {
            m00: div_trunc(rot.m00 * self.scale.x, SCALE),
            m01: div_trunc(rot.m01 * self.scale.y, SCALE),
            m02: div_trunc(rot.m02 * self.scale.z, SCALE),
            m10: div_trunc(rot.m10 * self.scale.x, SCALE),
            m11: div_trunc(rot.m11 * self.scale.y, SCALE),
            m12: div_trunc(rot.m12 * self.scale.z, SCALE),
            m20: div_trunc(rot.m20 * self.scale.x, SCALE),
            m21: div_trunc(rot.m21 * self.scale.y, SCALE),
            m22: div_trunc(rot.m22 * self.scale.z, SCALE),
            m03: self.position.x,
            m13: self.position.y,
            m23: self.position.z,
            m30: 0,
            m31: 0,
            m32: 0,
            m33: SCALE,
        }
    }
}

} // verus!

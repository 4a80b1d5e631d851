//! Motion strategies that move one object's shared transform along a fixed
//! path, advanced once per frame.

use vstd::prelude::*;
use crate::fixed::{
    SCALE, fmul, tdiv, mul_fp, lemma_abs_mul_bound, lemma_square_nonneg, lemma_tdiv_quotient_bound,
};
use crate::trig::{cos_of, sin_of, cos_fp, sin_fp, lemma_cos_sin_range, lemma_cos_sin_norm};
use crate::vec3::Vec3;

pub mod linear;
pub mod stationary;

verus! {

use vstd::arithmetic::div_mod::lemma_div_is_ordered;

/// Which way a path is being walked.
#[allow(non_camel_case_types)]
#[derive(Debug, Copy, Clone, PartialEq, Eq, Structural)]
pub enum Direction {
    FORWARDS,
    BACKWARDS,
    LEFT,
    RIGHT,
}

/// The fixed-point direction vector before normalization: spherical
/// coordinates read off the trig table.
pub open spec fn raw_direction(yaw: int, pitch: int) -> Vec3 {
    Vec3 {
        x: fmul(cos_of(pitch), cos_of(yaw)) as i64,
        y: sin_of(pitch) as i64,
        z: fmul(cos_of(pitch), sin_of(yaw)) as i64,
    }
}

/// The unit direction a yaw and pitch point at.
pub open spec fn direction_of(yaw: int, pitch: int) -> Vec3 {
    raw_direction(yaw, pitch).normalized()
}

/// The raw direction vector is never the zero vector: the trig table never
/// lets both the vertical and the horizontal part vanish.
pub proof fn lemma_raw_direction_nonzero(yaw: int, pitch: int)
    ensures
        raw_direction(yaw, pitch).norm2() > 0,
        raw_direction(yaw, pitch).bounded(SCALE as int),
{
    let cp = cos_of(pitch);
    let sp = sin_of(pitch);
    let cy = cos_of(yaw);
    let sy = sin_of(yaw);
    lemma_cos_sin_range(pitch);
    lemma_cos_sin_range(yaw);
    lemma_cos_sin_norm(pitch);
    lemma_cos_sin_norm(yaw);
    let v = raw_direction(yaw, pitch);
    lemma_abs_mul_bound(cp, cy, SCALE as int, SCALE as int);
    lemma_abs_mul_bound(cp, sy, SCALE as int, SCALE as int);
    lemma_tdiv_quotient_bound(cp * cy, SCALE as int, SCALE as int);
    lemma_tdiv_quotient_bound(cp * sy, SCALE as int, SCALE as int);
    lemma_square_nonneg(v.x as int);
    lemma_square_nonneg(v.y as int);
    lemma_square_nonneg(v.z as int);
    if sp != 0 {
        assert(sp * sp >= 1) by (nonlinear_arith)
            requires
                sp != 0,
        ;
    } else {
        // The pitch cosine is within one table defect of a full unit.
        assert(cp * cp >= 999998870512) by (nonlinear_arith)
            requires
                cp * cp + sp * sp >= 1000000000000 - 1129488,
                sp == 0,
        ;
        assert(cp >= 999999 || cp <= -999999) by (nonlinear_arith)
            requires
                cp * cp >= 999998870512,
        ;
        // One of the yaw components carries at least half the unit square.
        assert(cy * cy >= 499999435256 || sy * sy >= 499999435256) by (nonlinear_arith)
            requires
                cy * cy + sy * sy >= 1000000000000 - 1129488,
        ;
        if cy * cy >= 499999435256 {
            assert(cy >= 707106 || cy <= -707106) by (nonlinear_arith)
                requires
                    cy * cy >= 499999435256,
            ;
            lemma_big_product_quotient(cp, cy);
            assert(v.x * v.x >= 1) by (nonlinear_arith)
                requires
                    v.x as int == tdiv(cp * cy, SCALE as int),
                    tdiv(cp * cy, SCALE as int) >= 1 || tdiv(cp * cy, SCALE as int) <= -1,
            ;
        } else {
            assert(sy >= 707106 || sy <= -707106) by (nonlinear_arith)
                requires
                    sy * sy >= 499999435256,
            ;
            lemma_big_product_quotient(cp, sy);
            assert(v.z * v.z >= 1) by (nonlinear_arith)
                requires
                    v.z as int == tdiv(cp * sy, SCALE as int),
                    tdiv(cp * sy, SCALE as int) >= 1 || tdiv(cp * sy, SCALE as int) <= -1,
            ;
        }
    }
}

/// Two near-unit factors leave a visibly nonzero fixed-point product.
proof fn lemma_big_product_quotient(a: int, b: int)
    requires
        a >= 999999 || a <= -999999,
        b >= 707106 || b <= -707106,
        -(SCALE as int) <= a <= SCALE as int,
        -(SCALE as int) <= b <= SCALE as int,
    ensures
        tdiv(a * b, SCALE as int) >= 1 || tdiv(a * b, SCALE as int) <= -1,
{
    let p = a * b;
    let am = if a >= 0 { a } else { -a };
    let bm = if b >= 0 { b } else { -b };
    assert(am * bm >= 999999 * 707106) by (nonlinear_arith)
        requires
            am >= 999999,
            bm >= 707106,
    ;
    assert(p == am * bm || p == -(am * bm)) by (nonlinear_arith)
        requires
            p == a * b,
            am == a || am == -a,
            bm == b || bm == -b,
    ;
    if p >= 0 {
        lemma_div_is_ordered((999999 * 707106) as int, p, SCALE as int);
    } else {
        lemma_div_is_ordered((999999 * 707106) as int, -p, SCALE as int);
    }
}

/// The unit direction an object moves along, derived from yaw and pitch as
/// the spherical formula says, then normalized.
pub fn calculate_direction_vector(yaw_radians: i64, pitch_radians: i64) -> (r: Vec3)
    requires
        yaw_radians > i64::MIN,
        pitch_radians > i64::MIN,
    ensures
        r == direction_of(yaw_radians as int, pitch_radians as int),
        r.bounded(SCALE as int),
{
    proof {
        lemma_cos_sin_range(pitch_radians as int);
        lemma_cos_sin_range(yaw_radians as int);
        lemma_raw_direction_nonzero(yaw_radians as int, pitch_radians as int);
    }
    let cp = cos_fp(pitch_radians);
    let sp = sin_fp(pitch_radians);
    let cy = cos_fp(yaw_radians);
    let sy = sin_fp(yaw_radians);
    proof {
        lemma_abs_mul_bound(cp as int, cy as int, SCALE as int, SCALE as int);
        lemma_abs_mul_bound(cp as int, sy as int, SCALE as int, SCALE as int);
        lemma_tdiv_quotient_bound(cp * cy, SCALE as int, SCALE as int);
        lemma_tdiv_quotient_bound(cp * sy, SCALE as int, SCALE as int);
    }
    let v = Vec3 { x: mul_fp(cp, cy), y: sp, z: mul_fp(cp, sy) };
    v.normalize()
}

} // verus!

//! The orientation smoothing filter: yaw and pitch as exponentially
//! smoothed, clamped and wrap-corrected scalars driven by raw pointer
//! deltas.

use vstd::prelude::*;
use crate::fixed::{SCALE, fmul, clamped, clamp_fp, mul_fp, lemma_abs_mul_bound,
    lemma_tdiv_quotient_bound};
use crate::trig::{PI_FP, TAU_FP};
use crate::trajectory::{direction_of, calculate_direction_vector};
use crate::vec3::Vec3;

verus! {

/// Largest smoothed or raw delta the filter accepts in one call: a million
/// fixed-point units, far past any real pointer movement.
pub const RAW_DELTA_LIMIT: i64 = 1_000_000_000_000;

/// Pitch never leaves `[-PITCH_CLAMP_FP, PITCH_CLAMP_FP]`: eighty-nine
/// degrees in micro-radians.
pub const PITCH_CLAMP_FP: i64 = 1_553_343;

/// One exponential smoothing step: the previous smoothed delta blended
/// with the new raw delta.  The two factors are the complement pair
/// `(1 - alpha, alpha)`.
pub open spec fn smoothed(prev: int, raw: int, one_minus_alpha: int, alpha: int) -> int {
    fmul(prev, one_minus_alpha) + fmul(raw, alpha)
}

fn smoothing_interpolation(
    prev_value: i64,
    delta: i64,
    precalculated_smoothing_factor: i64,
    smoothing_factor: i64,
) -> (r: i64)
    requires
        0 <= precalculated_smoothing_factor <= SCALE,
        0 <= smoothing_factor <= SCALE,
        precalculated_smoothing_factor + smoothing_factor <= SCALE,
        -RAW_DELTA_LIMIT <= prev_value <= RAW_DELTA_LIMIT,
        -RAW_DELTA_LIMIT <= delta <= RAW_DELTA_LIMIT,
    ensures
        r == smoothed(
            prev_value as int,
            delta as int,
            precalculated_smoothing_factor as int,
            smoothing_factor as int,
        ),
        -RAW_DELTA_LIMIT <= r <= RAW_DELTA_LIMIT,
{
    proof {
        lemma_abs_mul_bound(
            prev_value as int,
            precalculated_smoothing_factor as int,
            RAW_DELTA_LIMIT as int,
            SCALE as int,
        );
        lemma_abs_mul_bound(
            delta as int,
            smoothing_factor as int,
            RAW_DELTA_LIMIT as int,
            SCALE as int,
        );
        lemma_tdiv_quotient_bound(
            prev_value * precalculated_smoothing_factor,
            SCALE as int,
            RAW_DELTA_LIMIT as int,
        );
        lemma_tdiv_quotient_bound(delta * smoothing_factor, SCALE as int, RAW_DELTA_LIMIT as int);
        lemma_smoothed_bound(
            prev_value as int,
            delta as int,
            precalculated_smoothing_factor as int,
            smoothing_factor as int,
        );
    }
    mul_fp(prev_value, precalculated_smoothing_factor) + mul_fp(delta, smoothing_factor)
}

/// With complementary factors, a smoothing step never exceeds the larger
/// of its two inputs in magnitude.
proof fn lemma_smoothed_bound(prev: int, raw: int, oma: int, alpha: int)
    requires
        0 <= oma,
        0 <= alpha,
        oma + alpha <= SCALE,
        -RAW_DELTA_LIMIT <= prev <= RAW_DELTA_LIMIT,
        -RAW_DELTA_LIMIT <= raw <= RAW_DELTA_LIMIT,
    ensures
        -RAW_DELTA_LIMIT <= smoothed(prev, raw, oma, alpha) <= RAW_DELTA_LIMIT,
{
    let cap = RAW_DELTA_LIMIT as int;
    lemma_abs_mul_bound(prev, oma, cap, oma);
    lemma_abs_mul_bound(raw, alpha, cap, alpha);
    assert(cap * oma + cap * alpha <= cap * (SCALE as int)) by (nonlinear_arith)
        requires
            oma + alpha <= SCALE as int,
            cap >= 0,
    ;
    lemma_tdiv_quotient_bound(prev * oma, SCALE as int, cap);
    lemma_tdiv_quotient_bound(raw * alpha, SCALE as int, cap);
    lemma_sum_of_scaled(prev * oma, raw * alpha, cap * oma, cap * alpha);
}

/// Two truncated shares of a split budget still fit the whole budget.
proof fn lemma_sum_of_scaled(a: int, b: int, ca: int, cb: int)
    requires
        -ca <= a <= ca,
        -cb <= b <= cb,
        0 <= ca,
        0 <= cb,
        ca + cb <= RAW_DELTA_LIMIT as int * SCALE as int,
    ensures
        -(RAW_DELTA_LIMIT as int) <= crate::fixed::tdiv(a, SCALE as int) + crate::fixed::tdiv(
            b,
            SCALE as int,
        ) <= RAW_DELTA_LIMIT as int,
{
    let s = SCALE as int;
    let cap = RAW_DELTA_LIMIT as int;
    let aa = if a >= 0 { a } else { -a };
    let bb = if b >= 0 { b } else { -b };
    let qaa = aa / s;
    let qbb = bb / s;
    vstd::arithmetic::div_mod::lemma_fundamental_div_mod(aa, s);
    vstd::arithmetic::div_mod::lemma_mod_bound(aa, s);
    vstd::arithmetic::div_mod::lemma_fundamental_div_mod(bb, s);
    vstd::arithmetic::div_mod::lemma_mod_bound(bb, s);
    vstd::arithmetic::div_mod::lemma_div_pos_is_pos(aa, s);
    vstd::arithmetic::div_mod::lemma_div_pos_is_pos(bb, s);
    assert(qaa * s <= aa && qbb * s <= bb);
    assert((qaa + qbb) * s == qaa * s + qbb * s) by (nonlinear_arith);
    assert(qaa + qbb <= cap) by {
        if qaa + qbb > cap {
            assert((qaa + qbb) * s >= (cap + 1) * s) by (nonlinear_arith)
                requires
                    qaa + qbb >= cap + 1,
                    s > 0,
            ;
        }
    };
    assert(crate::fixed::tdiv(a, s) == qaa || crate::fixed::tdiv(a, s) == -qaa);
    assert(crate::fixed::tdiv(b, s) == qbb || crate::fixed::tdiv(b, s) == -qbb);
}

/// The horizontal look angle, smoothed and wrap-corrected: when it has run
/// past half a turn, one full turn is subtracted in place of that frame's
/// accumulation.
#[derive(Debug, Clone, Copy, PartialEq, Eq, Structural)]
pub struct Yaw {
    pub value: i64,
    pub previous_delta: i64,
}

impl Yaw {
    /// The filter state is sane: the wrap keeps the value from running far
    /// past half a turn, and the remembered delta is a plausible one.  The
    /// value has no floor: walking left forever genuinely drives it down,
    /// so the room left above the smallest machine word is a precondition
    /// of each step instead.
    pub open spec fn wf(self) -> bool {
        &&& self.value <= (PI_FP + RAW_DELTA_LIMIT) as int
        &&& -RAW_DELTA_LIMIT <= self.previous_delta <= RAW_DELTA_LIMIT
    }

    /// The state one `add` call leaves behind.
    pub open spec fn added(self, raw: int, one_minus_alpha: int, alpha: int) -> Yaw {
        let s = smoothed(self.previous_delta as int, raw, one_minus_alpha, alpha);
        Yaw {
            value: if self.value > PI_FP {
                (self.value - TAU_FP) as i64
            } else {
                (self.value + s) as i64
            },
            previous_delta: s as i64,
        }
    }

    pub fn new(value: i64) -> (r: Yaw)
        ensures
            r.value == value,
            r.previous_delta == 0,
    {
        Yaw { value, previous_delta: 0 }
    }

    /// Feeds one raw delta through the smoothing recurrence.  Past half a
    /// turn the value is unwrapped by a full turn instead of accumulating,
    /// but the remembered delta updates either way.
    pub fn add(&mut self, value: i64, one_minus_smoothing_value: i64, smoothing_factor: i64)
        requires
            old(self).wf(),
            old(self).value >= i64::MIN + TAU_FP + RAW_DELTA_LIMIT,
            -RAW_DELTA_LIMIT <= value <= RAW_DELTA_LIMIT,
            0 <= one_minus_smoothing_value <= SCALE,
            0 <= smoothing_factor <= SCALE,
            one_minus_smoothing_value + smoothing_factor <= SCALE,
        ensures
            *final(self) == old(self).added(
                value as int,
                one_minus_smoothing_value as int,
                smoothing_factor as int,
            ),
            final(self).wf(),
            final(self).value >= old(self).value - TAU_FP - RAW_DELTA_LIMIT,
    {
        let smoothed_delta_interpolation = smoothing_interpolation(
            self.previous_delta,
            value,
            one_minus_smoothing_value,
            smoothing_factor,
        );
        if self.value > PI_FP {
            self.value = self.value - TAU_FP;
        } else {
            self.value = self.value + smoothed_delta_interpolation;
        }
        self.previous_delta = smoothed_delta_interpolation;
    }
}

/// The vertical look angle, smoothed and clamped so the view can never
/// pitch past eighty-nine degrees either way.  The raw delta is
/// subtracted, which inverts the vertical axis by design.
#[derive(Debug, Clone, Copy, PartialEq, Eq, Structural)]
pub struct Pitch {
    pub value: i64,
    pub previous_delta: i64,
}

impl Pitch {
    /// The clamp's invariant, plus a plausible remembered delta.
    pub open spec fn wf(self) -> bool {
        &&& -PITCH_CLAMP_FP <= self.value <= PITCH_CLAMP_FP
        &&& -RAW_DELTA_LIMIT <= self.previous_delta <= RAW_DELTA_LIMIT
    }

    /// The state one `add` call leaves behind.
    pub open spec fn added(self, raw: int, one_minus_alpha: int, alpha: int) -> Pitch {
        let s = smoothed(self.previous_delta as int, raw, one_minus_alpha, alpha);
        Pitch {
            value: clamped(
                self.value - s,
                -PITCH_CLAMP_FP as int,
                PITCH_CLAMP_FP as int,
            ) as i64,
            previous_delta: s as i64,
        }
    }

    pub fn new(value: i64) -> (r: Pitch)
        requires
            -PITCH_CLAMP_FP <= value <= PITCH_CLAMP_FP,
        ensures
            r.value == value,
            r.previous_delta == 0,
            r.wf(),
    {
        Pitch { value, previous_delta: 0 }
    }

    /// Feeds one raw delta through the smoothing recurrence, subtracting
    /// it and clamping.  Whatever the input, the value stays within
    /// eighty-nine degrees of level.
    pub fn add(&mut self, value: i64, one_minus_smoothing_value: i64, smoothing_factor: i64)
        requires
            old(self).wf(),
            -RAW_DELTA_LIMIT <= value <= RAW_DELTA_LIMIT,
            0 <= one_minus_smoothing_value <= SCALE,
            0 <= smoothing_factor <= SCALE,
            one_minus_smoothing_value + smoothing_factor <= SCALE,
        ensures
            *final(self) == old(self).added(
                value as int,
                one_minus_smoothing_value as int,
                smoothing_factor as int,
            ),
            final(self).wf(),
            -PITCH_CLAMP_FP <= final(self).value <= PITCH_CLAMP_FP,
    {
        let smoothed_interpolation_value = smoothing_interpolation(
            self.previous_delta,
            value,
            one_minus_smoothing_value,
            smoothing_factor,
        );
        let moved = self.value - smoothed_interpolation_value;
        self.value = clamp_fp(moved, -PITCH_CLAMP_FP, PITCH_CLAMP_FP);
        self.previous_delta = smoothed_interpolation_value;
    }
}

/// The whole orientation smoothing filter: yaw and pitch with their
/// recurrence state, plus the pointer sensitivity and the smoothing
/// factor.  Each camera carries its own filter, so several cameras stay
/// independent.
#[derive(Debug, Clone, Copy, PartialEq, Eq, Structural)]
pub struct OrientationFilter {
    pub yaw: Yaw,
    pub pitch: Pitch,
    pub sensitivity: i64,
    pub smoothing_factor: i64,
}

impl OrientationFilter {
    /// Sane filter state: both angles well-formed, the smoothing factor a
    /// true fraction, the sensitivity within a thousandfold.
    pub open spec fn wf(self) -> bool {
        &&& self.yaw.wf()
        &&& self.pitch.wf()
        &&& 0 <= self.smoothing_factor <= SCALE
        &&& 0 <= self.sensitivity <= 1_000_000_000
    }

    /// The filter state one gated `rotate` call leaves behind.
    pub open spec fn rotated(self, dx: int, dy: int) -> OrientationFilter {
        let oma = SCALE - self.smoothing_factor;
        OrientationFilter {
            yaw: self.yaw.added(fmul(dx, self.sensitivity as int), oma as int, self.smoothing_factor as int),
            pitch: self.pitch.added(fmul(dy, self.sensitivity as int), oma as int, self.smoothing_factor as int),
            ..self
        }
    }

    pub fn new(yaw: i64, pitch: i64, sensitivity: i64, smoothing_factor: i64) -> (r:
        OrientationFilter)
        requires
            yaw <= PI_FP + RAW_DELTA_LIMIT,
            -PITCH_CLAMP_FP <= pitch <= PITCH_CLAMP_FP,
            0 <= sensitivity <= 1_000_000_000,
            0 <= smoothing_factor <= SCALE,
        ensures
            r.yaw.value == yaw,
            r.pitch.value == pitch,
            r.yaw.previous_delta == 0,
            r.pitch.previous_delta == 0,
            r.sensitivity == sensitivity,
            r.smoothing_factor == smoothing_factor,
            r.wf(),
    {
        OrientationFilter { yaw: Yaw::new(yaw), pitch: Pitch::new(pitch), sensitivity, smoothing_factor }
    }

    /// Applies one frame of pointer movement to the look angles, but only
    /// when the primary button is held and the pointer is over the
    /// viewport; otherwise nothing changes.
    pub fn rotate(&mut self, dx: i64, dy: i64, is_primary_button_down: bool, pointer_in_window: bool)
        requires
            old(self).wf(),
            old(self).yaw.value >= i64::MIN + TAU_FP + RAW_DELTA_LIMIT,
            -1_000_000_000 <= dx <= 1_000_000_000,
            -1_000_000_000 <= dy <= 1_000_000_000,
        ensures
            final(self).wf(),
            final(self).yaw.value >= old(self).yaw.value - TAU_FP - RAW_DELTA_LIMIT,
            is_primary_button_down && pointer_in_window ==> *final(self) == old(self).rotated(
                dx as int,
                dy as int,
            ),
            !(is_primary_button_down && pointer_in_window) ==> *final(self) == *old(self),
    {
        if is_primary_button_down && pointer_in_window {
            proof {
                lemma_abs_mul_bound(dx as int, self.sensitivity as int, 1_000_000_000, 1_000_000_000);
                lemma_abs_mul_bound(dy as int, self.sensitivity as int, 1_000_000_000, 1_000_000_000);
                lemma_tdiv_quotient_bound(dx * self.sensitivity, SCALE as int, RAW_DELTA_LIMIT as int);
                lemma_tdiv_quotient_bound(dy * self.sensitivity, SCALE as int, RAW_DELTA_LIMIT as int);
            }
            let scaled_dx = mul_fp(dx, self.sensitivity);
            let scaled_dy = mul_fp(dy, self.sensitivity);
            let one_minus = SCALE - self.smoothing_factor;
            self.yaw.add(scaled_dx, one_minus, self.smoothing_factor);
            self.pitch.add(scaled_dy, one_minus, self.smoothing_factor);
        }
    }

    /// The unit vector the camera looks along, fed by the filtered angles.
    pub fn direction(&self) -> (r: Vec3)
        requires
            self.wf(),
            self.yaw.value > i64::MIN,
        ensures
            r == direction_of(self.yaw.value as int, self.pitch.value as int),
            r.bounded(SCALE as int),
    {
        calculate_direction_vector(self.yaw.value, self.pitch.value)
    }
}

} // verus!

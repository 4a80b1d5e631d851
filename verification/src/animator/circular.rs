//! Circular orbit motion: a point carried round a circle in the horizontal
//! plane, about the origin or about a moving target.

use vstd::prelude::*;
use crate::error::MotionError;
use crate::fixed::{SCALE, fmul, tdiv, mul_fp, lemma_abs_mul_bound, lemma_tdiv_quotient_bound};
use crate::handle::TransformHandle;
use crate::ids::MeshId;
use crate::transform::Transform;
use crate::trig::{TAU_FP, turn_of, cos_of, sin_of, cos_fp, sin_fp, lemma_cos_sin_range};
use crate::types::DeltaTime;
use crate::vec3::{Vec3, COORD_LIMIT};

verus! {

use vstd::arithmetic::div_mod::lemma_add_mod_noop_right;
use vstd::arithmetic::div_mod::lemma_fundamental_div_mod_converse;
use vstd::arithmetic::div_mod::lemma_mod_bound;

/// An object circling at a fixed radius and angular speed.  The angle is
/// kept reduced into `[0, TAU_FP)`; wrapping it changes no position, since
/// the trigonometry only sees the angle modulo a full turn.
#[derive(Clone)]
pub struct CircularTrajectory {
    pub id: MeshId,
    pub transform: TransformHandle,
    /// Orbit radius in units, positive.
    pub radius: i64,
    /// Current angle in micro-radians, within `[0, TAU_FP)`.
    pub angle: i64,
    /// Angular speed in radians per second, positive.
    pub speed: i64,
}

impl CircularTrajectory {
    /// The machine-limit well-formedness every constructed trajectory has.
    pub open spec fn wf(self) -> bool {
        &&& 1 <= self.radius <= COORD_LIMIT
        &&& 1 <= self.speed <= COORD_LIMIT
        &&& 0 <= self.angle < TAU_FP
    }

    /// The angle one frame later: the angular speed times the frame time,
    /// added and wrapped into a single turn.
    pub open spec fn angle_after(self, dt: int) -> int {
        turn_of(self.angle + tdiv(self.speed * dt, SCALE as int))
    }

    /// The state one successful `advance` leaves behind.
    pub open spec fn stepped(self, dt: int) -> CircularTrajectory {
        CircularTrajectory { angle: self.angle_after(dt) as i64, ..self }
    }

    /// The position one successful `advance` writes, about the origin: on
    /// the radius at the current angle, in the horizontal plane.
    pub open spec fn orbit_x(self) -> int {
        fmul(self.radius as int, cos_of(self.angle as int))
    }

    /// See `orbit_x`.
    pub open spec fn orbit_z(self) -> int {
        fmul(self.radius as int, sin_of(self.angle as int))
    }

    /// The position one frame writes about the origin: the circle point of
    /// the current angle in the horizontal plane, with the vertical
    /// component zeroed.
    pub open spec fn orbit_position(self) -> Vec3 {
        Vec3 { x: self.orbit_x() as i64, y: 0, z: self.orbit_z() as i64 }
    }

    /// The position one frame writes about a target: the circle point
    /// offset by the target, mirroring the target's height.
    pub open spec fn orbit_position_about(self, t: Transform) -> Vec3 {
        Vec3 {
            x: (t.position.x + self.orbit_x()) as i64,
            y: t.position.y,
            z: (t.position.z + self.orbit_z()) as i64,
        }
    }

    /// Builds the strategy.  Fails exactly when the radius or the angular
    /// speed is not positive; otherwise the orbit starts at angle zero.
    pub fn new_deconstructed_mesh(
        id: MeshId,
        transform: TransformHandle,
        radius: i64,
        speed: i64,
    ) -> (r: Result<Self, MotionError>)
        requires
            radius <= COORD_LIMIT,
            speed <= COORD_LIMIT,
        ensures
            radius <= 0 || speed <= 0 <==> r matches Err(MotionError::InvalidParameters),
            radius > 0 && speed > 0 ==> r matches Ok(_),
            r matches Ok(t) ==> {
                &&& t.wf()
                &&& t.id == id
                &&& t.radius == radius
                &&& t.speed == speed
                &&& t.angle == 0
            },
    {
        if radius <= 0 || speed <= 0 {
            return Err(MotionError::InvalidParameters);
        }
        Ok(CircularTrajectory { id, transform, radius, speed, angle: 0 })
    }

    /// The circle point the coming frame will write when no target is
    /// given: on the radius at the current angle, at height zero.
    pub fn next_position(&self) -> (p: Vec3)
        requires
            self.wf(),
        ensures
            p == self.orbit_position(),
    {
        let (cx, cz) = self.circle_point();
        Vec3 { x: cx, y: 0, z: cz }
    }

    /// The circle point the coming frame will write about `target`: offset
    /// by the target's position, mirroring its height.
    pub fn next_position_about(&self, target: &Transform) -> (p: Vec3)
        requires
            self.wf(),
            target.position.bounded(COORD_LIMIT as int),
        ensures
            p == self.orbit_position_about(*target),
    {
        let (cx, cz) = self.circle_point();
        Vec3 { x: target.position.x + cx, y: target.position.y, z: target.position.z + cz }
    }

    /// The horizontal coordinates of the circle point at the current angle.
    fn circle_point(&self) -> (r: (i64, i64))
        requires
            self.wf(),
        ensures
            r.0 == self.orbit_x(),
            r.1 == self.orbit_z(),
            -(COORD_LIMIT as int) <= r.0 <= COORD_LIMIT as int,
            -(COORD_LIMIT as int) <= r.1 <= COORD_LIMIT as int,
    {
        proof {
            lemma_cos_sin_range(self.angle as int);
            lemma_abs_mul_bound(
                self.radius as int,
                cos_of(self.angle as int),
                COORD_LIMIT as int,
                SCALE as int,
            );
            lemma_abs_mul_bound(
                self.radius as int,
                sin_of(self.angle as int),
                COORD_LIMIT as int,
                SCALE as int,
            );
            lemma_tdiv_quotient_bound(
                self.radius * cos_of(self.angle as int),
                SCALE as int,
                COORD_LIMIT as int,
            );
            lemma_tdiv_quotient_bound(
                self.radius * sin_of(self.angle as int),
                SCALE as int,
                COORD_LIMIT as int,
            );
        }
        (mul_fp(self.radius, cos_fp(self.angle)), mul_fp(self.radius, sin_fp(self.angle)))
    }

    /// One frame of orbit.  When the non-blocking write succeeds, the
    /// position written is `next_position` (about the target when one is
    /// given, else about the origin with the height zeroed) and only then
    /// does the angle advance.  A contended frame changes nothing and
    /// reports the contention, naming this object.
    pub fn animate(&mut self, target: Option<&Transform>, delta: DeltaTime) -> (r: Result<
        (),
        MotionError,
    >)
        requires
            old(self).wf(),
            target matches Some(t) ==> t.position.bounded(COORD_LIMIT as int),
        ensures
            final(self).wf(),
            r matches Ok(()) ==> *final(self) == old(self).stepped(delta as int),
            r matches Err(e) ==> *final(self) == *old(self) && e == (MotionError::LockContention {
                id: old(self).id.0,
            }),
    {
        let written = match target {
            Some(t) => self.transform.try_set_position(self.next_position_about(t)),
            None => self.transform.try_set_position(self.next_position()),
        };
        if !written {
            return Err(MotionError::LockContention { id: self.id.0.clone() });
        }
        self.angle = advance_angle(self.angle, self.speed, delta);
        Ok(())
    }

    /// Puts the orbit back at angle zero; nothing else changes.
    pub fn reset(&mut self)
        ensures
            *final(self) == (CircularTrajectory { angle: 0, ..*old(self) }),
    {
        self.angle = 0;
    }

    pub fn get_id(&self) -> (r: &MeshId)
        ensures
            r == self.id,
    {
        &self.id
    }
}

/// Circular motion stays on its circle: for any well-formed orbit of a
/// radius between one and a thousand units, the point written about the
/// origin lies within a thousandth of a unit of the radius, whatever the
/// elapsed time drove the angle to.  (Far larger radii outgrow the trig
/// table's resolution; the bound below is what the table guarantees.)
pub proof fn lemma_on_circle(c: CircularTrajectory)
    requires
        c.wf(),
        SCALE <= c.radius <= 1_000_000_000,
    ensures
        c.radius - 1000 <= crate::fixed::sqrt_of(
            c.orbit_x() * c.orbit_x() + c.orbit_z() * c.orbit_z(),
        ) <= c.radius + 1000,
{
    let s = SCALE as int;
    let dd = crate::trig::NORM_DEFECT as int;
    let r = c.radius as int;
    let a = c.angle as int;
    let tc = cos_of(a);
    let ts = sin_of(a);
    crate::trig::lemma_cos_sin_range(a);
    crate::trig::lemma_cos_sin_norm(a);
    let u = r * tc;
    let v = r * ts;
    lemma_abs_mul_bound(r, tc, 1_000_000_000, s);
    lemma_abs_mul_bound(r, ts, 1_000_000_000, s);
    assert(-(r * s) <= u <= r * s) by (nonlinear_arith)
        requires
            u == r * tc,
            -s <= tc <= s,
            r >= 0,
    ;
    assert(-(r * s) <= v <= r * s) by (nonlinear_arith)
        requires
            v == r * ts,
            -s <= ts <= s,
            r >= 0,
    ;
    let x = c.orbit_x();
    let z = c.orbit_z();
    crate::fixed::lemma_tdiv_close(u, s);
    crate::fixed::lemma_tdiv_close(v, s);
    lemma_tdiv_quotient_bound(u, s, 1_000_000_000);
    lemma_tdiv_quotient_bound(v, s, 1_000_000_000);
    // One squared coordinate misses its exact value by at most `2 r s + s^2`.
    lemma_square_perturbation(x, s, u, r * s);
    lemma_square_perturbation(z, s, v, r * s);
    // The exact squares sum to the radius squared, up to the table defect.
    assert(u * u + v * v == r * r * (tc * tc + ts * ts)) by (nonlinear_arith)
        requires
            u == r * tc,
            v == r * ts,
    ;
    assert(r * r * (s * s - dd) <= r * r * (tc * tc + ts * ts) <= r * r * (s * s + dd))
        by (nonlinear_arith)
        requires
            s * s - dd <= tc * tc + ts * ts <= s * s + dd,
            r >= 0,
    ;
    let low = r * r * (s * s) - r * r * dd - 4 * (r * s) * s - 2 * s * s;
    let high = r * r * (s * s) + r * r * dd + 4 * (r * s) * s + 2 * s * s;
    assert(r * r * (s * s - dd) == r * r * (s * s) - r * r * dd) by (nonlinear_arith);
    assert(r * r * (s * s + dd) == r * r * (s * s) + r * r * dd) by (nonlinear_arith);
    assert(low <= (x * s) * (x * s) + (z * s) * (z * s) <= high);
    assert((x * s) * (x * s) + (z * s) * (z * s) == (x * x + z * z) * (s * s))
        by (nonlinear_arith);
    // The defect terms fit inside the thousandth-of-a-unit band.
    assert(r * dd <= 1_994 * (s * s)) by (nonlinear_arith)
        requires
            0 <= r <= 1_000_000_000,
            dd == 1_129_488,
            s == 1_000_000,
    ;
    assert(r * r * dd <= r * (1_994 * (s * s))) by (nonlinear_arith)
        requires
            r * dd <= 1_994 * (s * s),
            r >= 0,
    ;
    let n2 = x * x + z * z;
    // Upper square: the sum of squares stays under `(r + 1001)^2`.
    assert(n2 * (s * s) < ((r + 1001) * (r + 1001)) * (s * s)) by (nonlinear_arith)
        requires
            n2 * (s * s) <= r * r * (s * s) + r * r * dd + 4 * (r * s) * s + 2 * s * s,
            r * r * dd <= r * (1_994 * (s * s)),
            r >= 1,
            s == 1_000_000,
    ;
    assert(n2 < (r + 1001) * (r + 1001)) by (nonlinear_arith)
        requires
            n2 * (s * s) < ((r + 1001) * (r + 1001)) * (s * s),
            s >= 1,
    ;
    // Lower square: the sum of squares stays at or above `(r - 1000)^2`.
    assert(((r - 1000) * (r - 1000)) * (s * s) <= n2 * (s * s)) by (nonlinear_arith)
        requires
            r * r * (s * s) - r * r * dd - 4 * (r * s) * s - 2 * s * s <= n2 * (s * s),
            r * r * dd <= r * (1_994 * (s * s)),
            r >= s,
            s == 1_000_000,
    ;
    assert((r - 1000) * (r - 1000) <= n2) by (nonlinear_arith)
        requires
            ((r - 1000) * (r - 1000)) * (s * s) <= n2 * (s * s),
            s >= 1,
    ;
    // Trap the integer square root between the two surrounding squares.
    crate::fixed::lemma_square_nonneg(x);
    crate::fixed::lemma_square_nonneg(z);
    crate::fixed::lemma_sqrt_char(n2);
    let d = crate::fixed::sqrt_of(n2);
    if d < r - 1000 {
        assert((d + 1) * (d + 1) <= (r - 1000) * (r - 1000)) by (nonlinear_arith)
            requires
                0 <= d,
                d + 1 <= r - 1000,
        ;
    }
    if d > r + 1000 {
        assert(d * d >= (r + 1001) * (r + 1001)) by (nonlinear_arith)
            requires
                d >= r + 1001,
                r + 1001 >= 0,
        ;
    }
}

/// Squaring a truncated quotient moves it from the exact square by at most
/// twice the numerator bound plus one square of the divisor.
proof fn lemma_square_perturbation(q: int, s: int, n: int, cap: int)
    requires
        s >= 1,
        -cap <= n <= cap,
        cap >= 0,
        n - s < q * s <= n + s,
    ensures
        n * n - 2 * cap * s - s * s <= (q * s) * (q * s) <= n * n + 2 * cap * s + s * s,
{
    let e = q * s - n;
    assert((q * s) * (q * s) == n * n + 2 * n * e + e * e) by (nonlinear_arith)
        requires
            e == q * s - n,
    ;
    assert(-(2 * cap * s) <= 2 * n * e <= 2 * cap * s) by (nonlinear_arith)
        requires
            -cap <= n <= cap,
            -s < e <= s,
            s >= 1,
            cap >= 0,
    ;
    assert(0 <= e * e <= s * s) by (nonlinear_arith)
        requires
            -s < e <= s,
    ;
}

/// The wrapped angle one frame later, computed in wide arithmetic so that
/// any speed and any frame time stay exact.
fn advance_angle(angle: i64, speed: i64, dt: i64) -> (r: i64)
    requires
        0 <= angle < TAU_FP,
        1 <= speed <= COORD_LIMIT,
    ensures
        r == turn_of(angle + tdiv(speed * dt, SCALE as int)),
        0 <= r < TAU_FP,
{
    proof {
        lemma_abs_mul_bound(speed as int, dt as int, COORD_LIMIT as int, 0x8000_0000_0000_0000);
    }
    let q: i128 = (speed as i128) * (dt as i128);
    let tau = TAU_FP as u128;
    let ghost inc = tdiv(speed as int * dt as int, SCALE as int);
    let magr: u128 = if q >= 0 {
        ((q as u128) / (SCALE as u128)) % tau
    } else {
        (((-q) as u128) / (SCALE as u128)) % tau
    };
    let incmod: i64 = if q >= 0 {
        magr as i64
    } else {
        if magr == 0 {
            0
        } else {
            TAU_FP - (magr as i64)
        }
    };
    proof {
        let t = TAU_FP as int;
        // incmod is the Euclidean remainder of the raw increment.
        if q < 0 {
            let k = -inc;
            let qq = k / t;
            let m = k % t;
            if m == 0 {
                lemma_fundamental_div_mod_converse(inc, t, -qq, 0);
            } else {
                lemma_fundamental_div_mod_converse(inc, t, -qq - 1, t - m);
            }
        }
        assert(incmod == inc % t);
        // Adding the remainder instead of the raw increment wraps the same.
        lemma_add_mod_noop_right(angle as int, inc, t);
        // One conditional subtraction reduces the sum of two remainders.
        let sum = angle as int + incmod as int;
        if sum < t {
            lemma_fundamental_div_mod_converse(sum, t, 0, sum);
        } else {
            lemma_fundamental_div_mod_converse(sum, t, 1, sum - t);
        }
    }
    let sum: i64 = angle + incmod;
    if sum >= TAU_FP {
        sum - TAU_FP
    } else {
        sum
    }
}

} // verus!

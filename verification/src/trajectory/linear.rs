//! Straight-line motion between two ends of a fixed path, with optional
//! looping and bouncing at the ends.

use vstd::prelude::*;
use crate::error::MotionError;
use crate::fixed::{SCALE, fmul, tdiv, clamped, clamp_fp, mul_fp, div_trunc_wide,
    lemma_abs_mul_bound, lemma_tdiv_quotient_bound};
use crate::handle::TransformHandle;
use crate::trajectory::{Direction, direction_of, calculate_direction_vector};
use crate::transform::Transform;
use crate::types::DeltaTime;
use crate::vec3::{Vec3, COORD_LIMIT};

verus! {

use vstd::arithmetic::div_mod::lemma_div_is_ordered;
use vstd::arithmetic::div_mod::lemma_div_pos_is_pos;

/// An object walking a straight path.  `progress` is the normalized place
/// on the path, between minus one and one in fixed point; the written
/// position is always recomputed from it, never drifted.
#[derive(Clone)]
pub struct LinearTrajectory {
    pub id: String,
    pub transform: TransformHandle,
    pub start_position: Vec3,
    pub yaw_radians: i64,
    pub pitch_radians: i64,
    /// Path length in units, positive.
    pub distance: i64,
    /// Speed in units per second, positive.
    pub speed: i64,
    /// Between `-SCALE` and `SCALE`.
    pub progress: i64,
    pub looping: bool,
    pub reversing: bool,
    pub direction: Direction,
}

impl LinearTrajectory {
    /// The machine-limit well-formedness every constructed trajectory has.
    pub open spec fn wf(self) -> bool {
        &&& 1 <= self.distance <= COORD_LIMIT
        &&& 1 <= self.speed <= COORD_LIMIT
        &&& self.start_position.bounded(COORD_LIMIT as int)
        &&& self.yaw_radians > i64::MIN
        &&& self.pitch_radians > i64::MIN
        &&& -(SCALE as int) <= self.progress <= SCALE as int
        &&& (self.direction == Direction::FORWARDS || self.direction == Direction::BACKWARDS)
    }

    /// How far one frame moves the raw progress: the signed step
    /// `speed * dt / distance`, positive when walking forwards.
    pub open spec fn raw_step(self, dt: int) -> int {
        let s = tdiv(self.speed * dt, self.distance as int);
        if self.direction == Direction::FORWARDS {
            s
        } else {
            -s
        }
    }

    /// The progress after one frame, clamped to the path's ends.
    pub open spec fn progress_after(self, dt: int) -> int {
        clamped(self.progress + self.raw_step(dt), -(SCALE as int), SCALE as int)
    }

    /// Does this frame complete a hard loop: the far end reached while
    /// looping without bouncing, so the object snaps back to the start.
    pub open spec fn hard_loops(self, dt: int) -> bool {
        self.progress_after(dt) >= SCALE && self.looping && !self.reversing
    }

    /// The whole state one successful `animate` call leaves behind.
    pub open spec fn stepped(self, dt: int) -> LinearTrajectory {
        let p = self.progress_after(dt);
        let dir = if p >= SCALE && self.reversing {
            Direction::BACKWARDS
        } else if p <= -(SCALE as int) && self.looping {
            Direction::FORWARDS
        } else {
            self.direction
        };
        LinearTrajectory {
            progress: if self.hard_loops(dt) {
                0
            } else {
                p as i64
            },
            direction: dir,
            ..self
        }
    }

    /// Where on the path a given progress puts the object.
    pub open spec fn position_at(self, p: int) -> Vec3 {
        let d = direction_of(self.yaw_radians as int, self.pitch_radians as int);
        Vec3 {
            x: (self.start_position.x + fmul(fmul(d.x as int, self.distance as int), p)) as i64,
            y: (self.start_position.y + fmul(fmul(d.y as int, self.distance as int), p)) as i64,
            z: (self.start_position.z + fmul(fmul(d.z as int, self.distance as int), p)) as i64,
        }
    }

    /// The position one successful `animate` call writes: the new spot on
    /// the path, or the start itself when the frame completes a hard loop.
    pub open spec fn written_position(self, dt: int) -> Vec3 {
        if self.hard_loops(dt) {
            self.start_position
        } else {
            self.position_at(self.progress_after(dt))
        }
    }

    /// Builds the strategy from its parts.  Fails exactly when the path
    /// length or the speed is not positive, and otherwise starts at the
    /// path's start, facing forwards.
    pub fn new_deconstructed_mesh(
        id: String,
        transform: TransformHandle,
        start_position: Vec3,
        yaw_radians: i64,
        pitch_radians: i64,
        distance: i64,
        speed: i64,
        looping: bool,
        reversing: bool,
    ) -> (r: Result<Self, MotionError>)
        requires
            start_position.bounded(COORD_LIMIT as int),
            distance <= COORD_LIMIT,
            speed <= COORD_LIMIT,
            yaw_radians > i64::MIN,
            pitch_radians > i64::MIN,
        ensures
            distance <= 0 || speed <= 0 <==> r matches Err(MotionError::InvalidParameters),
            distance > 0 && speed > 0 ==> r matches Ok(_),
            r matches Ok(t) ==> {
                &&& t.wf()
                &&& t.id == id
                &&& t.start_position == start_position
                &&& t.yaw_radians == yaw_radians
                &&& t.pitch_radians == pitch_radians
                &&& t.distance == distance
                &&& t.speed == speed
                &&& t.progress == 0
                &&& t.looping == looping
                &&& t.reversing == reversing
                &&& t.direction == Direction::FORWARDS
            },
    {
        if distance <= 0 || speed <= 0 {
            return Err(MotionError::InvalidParameters);
        }
        Ok(
            LinearTrajectory {
                id,
                transform,
                start_position,
                yaw_radians,
                pitch_radians,
                distance,
                speed,
                progress: 0,
                looping,
                reversing,
                direction: Direction::FORWARDS,
            },
        )
    }

    /// The position the coming frame will write: the advanced spot on the
    /// path, or the start itself when the frame completes a hard loop.
    pub fn next_position(&self, delta: DeltaTime) -> (p: Vec3)
        requires
            self.wf(),
        ensures
            p == self.written_position(delta as int),
    {
        let dir_vec = calculate_direction_vector(self.yaw_radians, self.pitch_radians);
        let new_progress = self.advanced_progress(delta);
        proof {
            lemma_position_fits(*self, dir_vec, new_progress as int);
        }
        let off_x = mul_fp(mul_fp(dir_vec.x, self.distance), new_progress);
        let off_y = mul_fp(mul_fp(dir_vec.y, self.distance), new_progress);
        let off_z = mul_fp(mul_fp(dir_vec.z, self.distance), new_progress);
        if new_progress >= SCALE && self.looping && !self.reversing {
            self.start_position
        } else {
            Vec3 {
                x: self.start_position.x + off_x,
                y: self.start_position.y + off_y,
                z: self.start_position.z + off_z,
            }
        }
    }

    /// One frame of motion.  The step, the clamp and the end-of-path rules
    /// are applied only when the non-blocking write of `next_position`
    /// succeeds; a contended frame changes nothing and reports the
    /// contention, naming this object.  The optional target is not used by
    /// linear motion.
    pub fn animate(&mut self, _target: Option<&Transform>, delta: DeltaTime) -> (r: Result<
        (),
        MotionError,
    >)
        requires
            old(self).wf(),
        ensures
            final(self).wf(),
            r matches Ok(()) ==> *final(self) == old(self).stepped(delta as int),
            r matches Err(e) ==> *final(self) == *old(self) && e == (MotionError::LockContention {
                id: old(self).id,
            }),
    {
        let ghost orig = *self;
        let pos = self.next_position(delta);
        let new_progress = self.advanced_progress(delta);
        let hard_loop = new_progress >= SCALE && self.looping && !self.reversing;
        if !self.transform.try_set_position(pos) {
            return Err(MotionError::LockContention { id: self.id.clone() });
        }
        if new_progress >= SCALE && self.reversing {
            self.direction = Direction::BACKWARDS;
        }
        if new_progress <= -SCALE && self.looping {
            self.direction = Direction::FORWARDS;
        }
        self.progress = if hard_loop {
            0
        } else {
            new_progress
        };
        proof {
            assert(*self == orig.stepped(delta as int));
        }
        Ok(())
    }

    /// The new clamped progress of one frame.
    fn advanced_progress(&self, delta: DeltaTime) -> (r: i64)
        requires
            self.wf(),
        ensures
            r == self.progress_after(delta as int),
            -SCALE <= r <= SCALE,
    {
        proof {
            lemma_abs_mul_bound(self.speed as int, delta as int, COORD_LIMIT as int, 0x8000_0000_0000_0000);
            lemma_abs_mul_bound(self.distance as int, 2 * SCALE + 1, COORD_LIMIT as int, 2 * SCALE
                + 1);
        }
        let q: i128 = (self.speed as i128) * (delta as i128);
        let cap: i128 = (self.distance as i128) * ((2 * SCALE + 1) as i128);
        let step: i64 = if q >= cap {
            proof {
                lemma_capped_step(self.speed as int, delta as int, self.distance as int);
            }
            2 * SCALE + 1
        } else if q <= -cap {
            proof {
                lemma_capped_step(self.speed as int, delta as int, self.distance as int);
            }
            -(2 * SCALE + 1)
        } else {
            proof {
                let qq = self.speed as int * delta as int;
                let dd = self.distance as int;
                if qq >= 0 {
                    vstd::arithmetic::div_mod::lemma_multiply_divide_lt(qq, dd, 2 * SCALE + 1);
                    vstd::arithmetic::div_mod::lemma_div_pos_is_pos(qq, dd);
                } else {
                    vstd::arithmetic::div_mod::lemma_multiply_divide_lt(-qq, dd, 2 * SCALE + 1);
                    vstd::arithmetic::div_mod::lemma_div_pos_is_pos(-qq, dd);
                }
                assert(dd * (2 * SCALE + 1) <= dd * 0x7fff_ffff_ffff_ffff) by (nonlinear_arith)
                    requires
                        dd >= 1,
                ;
            }
            div_trunc_wide(q, self.distance)
        };
        let signed: i64 = if matches!(self.direction, Direction::FORWARDS) {
            step
        } else {
            -step
        };
        proof {
            lemma_clamp_cap(self.progress as int, self.raw_step(delta as int), signed as int);
        }
        let sum: i64 = self.progress + signed;
        clamp_fp(sum, -SCALE, SCALE)
    }

    /// Stops the walk and puts the object back at the start: progress
    /// zeroed, facing forwards, and the start position written if the lock
    /// can be had this instant (a contended reset still resets the state;
    /// the next successful frame rewrites the position anyway).
    pub fn reset(&mut self)
        ensures
            final(self).progress == 0,
            final(self).direction == Direction::FORWARDS,
            final(self).id == old(self).id,
            final(self).transform == old(self).transform,
            final(self).start_position == old(self).start_position,
            final(self).yaw_radians == old(self).yaw_radians,
            final(self).pitch_radians == old(self).pitch_radians,
            final(self).distance == old(self).distance,
            final(self).speed == old(self).speed,
            final(self).looping == old(self).looping,
            final(self).reversing == old(self).reversing,
    {
        self.progress = 0;
        self.direction = Direction::FORWARDS;
        let _ = self.transform.try_set_position(self.start_position);
    }
}

/// A frame that drives a reversing path's progress to exactly the far end
/// leaves the walk going backwards: every later frame starts from
/// `Direction::BACKWARDS`.
pub proof fn lemma_reversal_at_far_end(t: LinearTrajectory, dt: int)
    requires
        t.wf(),
        t.reversing,
        t.progress_after(dt) >= SCALE,
    ensures
        t.stepped(dt).progress == SCALE,
        t.stepped(dt).direction == Direction::BACKWARDS,
{
}

/// A frame that carries a looping, non-reversing path to the far end snaps
/// it back on that same call: progress returns to zero and the position
/// written is the start itself.
pub proof fn lemma_hard_loop_resets(t: LinearTrajectory, dt: int)
    requires
        t.wf(),
        t.looping,
        !t.reversing,
        t.progress_after(dt) >= SCALE,
    ensures
        t.stepped(dt).progress == 0,
        t.written_position(dt) == t.start_position,
{
}

/// Progress zero is the path's start: the snap-back of a hard loop and a
/// reset write the same point an ordinary frame at progress zero would.
pub proof fn lemma_start_of_path(t: LinearTrajectory)
    requires
        t.wf(),
    ensures
        t.position_at(0) == t.start_position,
{
    let d = direction_of(t.yaw_radians as int, t.pitch_radians as int);
    assert(d.x * t.distance * 0 == 0) by (nonlinear_arith);
    assert(fmul(fmul(d.x as int, t.distance as int), 0) == 0) by {
        lemma_mul_zero(fmul(d.x as int, t.distance as int));
    };
    assert(fmul(fmul(d.y as int, t.distance as int), 0) == 0) by {
        lemma_mul_zero(fmul(d.y as int, t.distance as int));
    };
    assert(fmul(fmul(d.z as int, t.distance as int), 0) == 0) by {
        lemma_mul_zero(fmul(d.z as int, t.distance as int));
    };
}

/// Scaling by a zero factor gives zero.
proof fn lemma_mul_zero(a: int)
    ensures
        fmul(a, 0) == 0,
{
    assert(a * 0 == 0) by (nonlinear_arith);
    assert(tdiv(0, SCALE as int) == 0) by {
        vstd::arithmetic::div_mod::lemma_div_basics(SCALE as int);
    };
}

/// When the uncapped step leaves `[-(2 SCALE), 2 SCALE]`, the capped stand-in
/// clamps to the same progress.
proof fn lemma_capped_step(speed: int, dt: int, distance: int)
    requires
        1 <= distance,
        1 <= speed,
    ensures
        speed * dt >= distance * (2 * SCALE + 1) ==> tdiv(speed * dt, distance) >= 2 * SCALE + 1,
        speed * dt <= -(distance * (2 * SCALE + 1)) ==> tdiv(speed * dt, distance) <= -(2 * SCALE
            + 1),
{
    let q = speed * dt;
    let cap = distance * (2 * SCALE + 1);
    if q >= cap {
        lemma_div_is_ordered(cap, q, distance);
        vstd::arithmetic::div_mod::lemma_div_multiples_vanish(2 * SCALE + 1, distance);
    }
    if q <= -cap {
        lemma_div_is_ordered(cap, -q, distance);
        vstd::arithmetic::div_mod::lemma_div_multiples_vanish(2 * SCALE + 1, distance);
    }
}

/// Clamping to `[-SCALE, SCALE]` cannot tell a large step from its capped
/// stand-in.
proof fn lemma_clamp_cap(p: int, step: int, capped: int)
    requires
        -(SCALE as int) <= p <= SCALE as int,
        capped == step || (step >= 2 * SCALE + 1 && capped == 2 * SCALE + 1) || (step <= -(2 * SCALE
            + 1) && capped == -(2 * SCALE + 1)),
    ensures
        clamped(p + step, -(SCALE as int), SCALE as int) == clamped(
            p + capped,
            -(SCALE as int),
            SCALE as int,
        ),
{
}

/// Every part of the written position fits the machine words.
proof fn lemma_position_fits(t: LinearTrajectory, d: Vec3, p: int)
    requires
        t.wf(),
        d.bounded(SCALE as int),
        -(SCALE as int) <= p <= SCALE as int,
    ensures
        -0x7fff_ffff_ffff_ffff <= d.x * t.distance <= 0x7fff_ffff_ffff_ffff,
        -0x7fff_ffff_ffff_ffff <= d.y * t.distance <= 0x7fff_ffff_ffff_ffff,
        -0x7fff_ffff_ffff_ffff <= d.z * t.distance <= 0x7fff_ffff_ffff_ffff,
        -(COORD_LIMIT as int) <= fmul(d.x as int, t.distance as int) <= COORD_LIMIT as int,
        -(COORD_LIMIT as int) <= fmul(d.y as int, t.distance as int) <= COORD_LIMIT as int,
        -(COORD_LIMIT as int) <= fmul(d.z as int, t.distance as int) <= COORD_LIMIT as int,
        -0x7fff_ffff_ffff_ffff <= fmul(d.x as int, t.distance as int) * p
            <= 0x7fff_ffff_ffff_ffff,
        -0x7fff_ffff_ffff_ffff <= fmul(d.y as int, t.distance as int) * p
            <= 0x7fff_ffff_ffff_ffff,
        -0x7fff_ffff_ffff_ffff <= fmul(d.z as int, t.distance as int) * p
            <= 0x7fff_ffff_ffff_ffff,
        -(COORD_LIMIT as int) <= fmul(fmul(d.x as int, t.distance as int), p) <= COORD_LIMIT as int,
        -(COORD_LIMIT as int) <= fmul(fmul(d.y as int, t.distance as int), p) <= COORD_LIMIT as int,
        -(COORD_LIMIT as int) <= fmul(fmul(d.z as int, t.distance as int), p) <= COORD_LIMIT as int,
{
    let cl = COORD_LIMIT as int;
    let sc = SCALE as int;
    lemma_abs_mul_bound(d.x as int, t.distance as int, sc, cl);
    lemma_abs_mul_bound(d.y as int, t.distance as int, sc, cl);
    lemma_abs_mul_bound(d.z as int, t.distance as int, sc, cl);
    lemma_tdiv_quotient_bound(d.x * t.distance, sc, cl);
    lemma_tdiv_quotient_bound(d.y * t.distance, sc, cl);
    lemma_tdiv_quotient_bound(d.z * t.distance, sc, cl);
    lemma_abs_mul_bound(fmul(d.x as int, t.distance as int), p, cl, sc);
    lemma_abs_mul_bound(fmul(d.y as int, t.distance as int), p, cl, sc);
    lemma_abs_mul_bound(fmul(d.z as int, t.distance as int), p, cl, sc);
    lemma_tdiv_quotient_bound(fmul(d.x as int, t.distance as int) * p, sc, cl);
    lemma_tdiv_quotient_bound(fmul(d.y as int, t.distance as int) * p, sc, cl);
    lemma_tdiv_quotient_bound(fmul(d.z as int, t.distance as int) * p, sc, cl);
}

} // verus!

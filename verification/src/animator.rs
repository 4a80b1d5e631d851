//! The playback controller: play, pause, resume and reset around one motion
//! strategy, with a speed multiplier and accumulated playtime.

use vstd::prelude::*;
use crate::error::MotionError;
use crate::fixed::{fmul, mul_fp, lemma_abs_mul_bound};
use crate::ids::MeshId;
use crate::trajectory::Direction;
use crate::trajectory::linear::LinearTrajectory;
use crate::transform::Transform;
use crate::types::{DeltaTime, MAX_FRAME_DELTA};
use crate::vec3::COORD_LIMIT;

pub mod circular;
pub mod stationary;

verus! {

/// The speed multiplier that plays an animation at its own pace.
pub const NEUTRAL_SPEED: i64 = 1_000_000;

/// One motion strategy: the fixed set of motion patterns an animator can
/// drive, dispatched by pattern match.
#[derive(Clone)]
pub enum MotionStrategy {
    Stationary(stationary::StationaryTrajectory),
    Linear(LinearTrajectory),
    Circular(circular::CircularTrajectory),
}

impl MotionStrategy {
    /// The well-formedness of whichever strategy this is.
    pub open spec fn wf(self) -> bool {
        match self {
            MotionStrategy::Stationary(_) => true,
            MotionStrategy::Linear(l) => l.wf(),
            MotionStrategy::Circular(c) => c.wf(),
        }
    }

    /// The state one successful `animate` leaves behind.
    pub open spec fn stepped(self, dt: int) -> MotionStrategy {
        match self {
            MotionStrategy::Stationary(s) => MotionStrategy::Stationary(s),
            MotionStrategy::Linear(l) => MotionStrategy::Linear(l.stepped(dt)),
            MotionStrategy::Circular(c) => MotionStrategy::Circular(c.stepped(dt)),
        }
    }

    /// The state `reset` leaves behind: the strategy back at its start.
    pub open spec fn reset_spec(self) -> MotionStrategy {
        match self {
            MotionStrategy::Stationary(s) => MotionStrategy::Stationary(s),
            MotionStrategy::Linear(l) => MotionStrategy::Linear(
                LinearTrajectory { progress: 0, direction: Direction::FORWARDS, ..l },
            ),
            MotionStrategy::Circular(c) => MotionStrategy::Circular(
                circular::CircularTrajectory { angle: 0, ..c },
            ),
        }
    }

    /// The characters of the owning mesh's identifier.
    pub open spec fn id_view(self) -> Seq<char> {
        match self {
            MotionStrategy::Stationary(s) => s.id.0@,
            MotionStrategy::Linear(l) => l.id@,
            MotionStrategy::Circular(c) => c.id.0@,
        }
    }

    /// The identifier of the mesh this strategy drives.
    pub fn get_id(&self) -> (r: &str)
        ensures
            r@ == self.id_view(),
    {
        match self {
            MotionStrategy::Stationary(s) => s.id.0.as_str(),
            MotionStrategy::Linear(l) => l.id.as_str(),
            MotionStrategy::Circular(c) => c.id.0.as_str(),
        }
    }

    /// One frame of whichever motion this is: on a successful write the
    /// strategy steps, on contention it reports and nothing changes.
    pub fn animate(&mut self, target: Option<&Transform>, delta: DeltaTime) -> (r: Result<
        (),
        MotionError,
    >)
        requires
            old(self).wf(),
            target matches Some(t) ==> t.position.bounded(COORD_LIMIT as int),
        ensures
            final(self).wf(),
            r matches Ok(()) ==> *final(self) == old(self).stepped(delta as int),
            r matches Err(e) ==> *final(self) == *old(self) && (e matches
                MotionError::LockContention { id } && id@ == old(self).id_view()),
            old(self) matches MotionStrategy::Stationary(_) ==> r matches Ok(()),
    {
        match self {
            MotionStrategy::Stationary(s) => s.animate(target, delta),
            MotionStrategy::Linear(l) => l.animate(target, delta),
            MotionStrategy::Circular(c) => c.animate(target, delta),
        }
    }

    /// Puts the strategy back at its start.
    pub fn reset(&mut self)
        ensures
            *final(self) == old(self).reset_spec(),
    {
        match self {
            MotionStrategy::Stationary(s) => s.reset(),
            MotionStrategy::Linear(l) => l.reset(),
            MotionStrategy::Circular(c) => c.reset(),
        }
    }
}

/// Wraps one motion strategy and controls its playback: an animation can be
/// played frame by frame, paused and resumed, slowed or sped up, and put
/// back to its start.
pub struct Animator {
    pub id: MeshId,
    pub elapsed_time: i64,
    pub speed_multiplier: i64,
    pub is_currently_playing: bool,
    pub animation: MotionStrategy,
}

impl Animator {
    /// The machine-limit well-formedness every constructed animator has.
    pub open spec fn wf(self) -> bool {
        &&& self.animation.wf()
        &&& -(COORD_LIMIT as int) <= self.speed_multiplier <= COORD_LIMIT as int
    }

    /// Binds a controller to one strategy: playing from the start, with
    /// nothing accumulated, at the given speed.
    pub fn new(speed_multiplier: i64, animation: MotionStrategy) -> (r: Result<Self, MotionError>)
        requires
            animation.wf(),
            -COORD_LIMIT <= speed_multiplier <= COORD_LIMIT,
        ensures
            r matches Ok(a) ==> {
                &&& a.wf()
                &&& a.id.0@ == animation.id_view()
                &&& a.elapsed_time == 0
                &&& a.speed_multiplier == speed_multiplier
                &&& a.is_currently_playing == true
                &&& a.animation == animation
            },
            r matches Ok(_),
    {
        let id = MeshId(self_id_string(&animation));
        Ok(
            Animator {
                id,
                speed_multiplier,
                elapsed_time: 0,
                is_currently_playing: true,
                animation,
            },
        )
    }

    /// One frame of playback.  Paused, it is a no-op that still succeeds.
    /// Playing, it accumulates the frame's delta and advances the wrapped
    /// strategy by the delta times the speed multiplier; a contended write
    /// in the strategy is passed on, with the accumulated time kept.
    pub fn play(&mut self, delta_time: DeltaTime) -> (r: Result<(), MotionError>)
        requires
            old(self).wf(),
            0 <= delta_time <= MAX_FRAME_DELTA,
            old(self).elapsed_time + delta_time <= i64::MAX,
        ensures
            final(self).wf(),
            !old(self).is_currently_playing ==> *final(self) == *old(self) && r matches Ok(()),
            old(self).is_currently_playing ==> {
                &&& final(self).elapsed_time == old(self).elapsed_time + delta_time
                &&& final(self).id == old(self).id
                &&& final(self).speed_multiplier == old(self).speed_multiplier
                &&& final(self).is_currently_playing
                &&& (r matches Ok(()) ==> final(self).animation == old(self).animation.stepped(
                    fmul(old(self).speed_multiplier as int, delta_time as int),
                ))
                &&& (r matches Err(e) ==> final(self).animation == old(self).animation && (e
                    matches MotionError::LockContention { id } && id@ == old(
                    self,
                ).animation.id_view()))
                &&& (old(self).animation matches MotionStrategy::Stationary(_) ==> r matches Ok(
                    (),
                ))
            },
    {
        if self.is_currently_playing {
            proof {
                lemma_abs_mul_bound(
                    self.speed_multiplier as int,
                    delta_time as int,
                    COORD_LIMIT as int,
                    MAX_FRAME_DELTA as int,
                );
            }
            self.elapsed_time = self.elapsed_time + delta_time;
            let effective = mul_fp(self.speed_multiplier, delta_time);
            if let Err(e) = self.animation.animate(None, effective) {
                return Err(e);
            }
        }
        Ok(())
    }

    /// Starts playing again; nothing else changes.
    pub fn resume(&mut self)
        ensures
            *final(self) == (Animator { is_currently_playing: true, ..*old(self) }),
    {
        self.is_currently_playing = true;
    }

    /// Stops playing; accumulated time and strategy state stay put.
    pub fn pause(&mut self)
        ensures
            *final(self) == (Animator { is_currently_playing: false, ..*old(self) }),
    {
        self.is_currently_playing = false;
    }

    /// Forgets the accumulated playtime and puts the strategy back at its
    /// start; the speed multiplier and the playing flag are untouched.
    pub fn reset(&mut self)
        ensures
            final(self).elapsed_time == 0,
            final(self).animation == old(self).animation.reset_spec(),
            final(self).id == old(self).id,
            final(self).speed_multiplier == old(self).speed_multiplier,
            final(self).is_currently_playing == old(self).is_currently_playing,
    {
        self.elapsed_time = 0;
        self.animation.reset();
    }

    pub fn get_elapsed_time(&self) -> (r: i64)
        ensures
            r == self.elapsed_time,
    {
        self.elapsed_time
    }

    pub fn get_speed_multiplier(&self) -> (r: i64)
        ensures
            r == self.speed_multiplier,
    {
        self.speed_multiplier
    }
}

/// Resetting a motion strategy is idempotent: a second reset straight after
/// a first one changes nothing more.
pub proof fn lemma_reset_idempotent(s: MotionStrategy)
    ensures
        s.reset_spec().reset_spec() == s.reset_spec(),
{
}

/// The strategy's identifier as an owned string.
fn self_id_string(animation: &MotionStrategy) -> (r: String)
    ensures
        r@ == animation.id_view(),
{
    let s = animation.get_id();
    s.to_owned()
}

} // verus!

//! The null motion strategy: an object that never moves.

use vstd::prelude::*;
use crate::error::MotionError;
use crate::transform::Transform;
use crate::types::DeltaTime;

verus! {

/// A strategy for immovable objects: advancing it does nothing and always
/// succeeds.
pub struct StationaryTrajectory {}

impl StationaryTrajectory {
    /// A no-op that always succeeds, whatever the target or delta.
    pub fn animate(&mut self, _t: Option<&Transform>, _delta: DeltaTime) -> (r: Result<
        (),
        MotionError,
    >)
        ensures
            r matches Ok(()),
            *final(self) == *old(self),
    {
        Ok(())
    }

    /// There is no state to reset.
    pub fn reset(&mut self)
        ensures
            *final(self) == *old(self),
    {
    }
}

} // verus!

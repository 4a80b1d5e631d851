//! The null strategy under the playback controller: a named object that
//! never moves.

use vstd::prelude::*;
use crate::error::MotionError;
use crate::ids::MeshId;
use crate::transform::Transform;
use crate::types::DeltaTime;

verus! {

/// A strategy for immovable objects; it still carries the id of the mesh it
/// stands for.
#[derive(Clone)]
pub struct StationaryTrajectory {
    pub id: MeshId,
}

impl StationaryTrajectory {
    /// A no-op that always succeeds, whatever the target or delta.
    pub fn animate(&mut self, _t: Option<&Transform>, _delta: DeltaTime) -> (r: Result<
        (),
        MotionError,
    >)
        ensures
            r matches Ok(()),
            *final(self) == *old(self),
    {
        Ok(())
    }

    /// There is no motion state to reset.
    pub fn reset(&mut self)
        ensures
            *final(self) == *old(self),
    {
    }

    pub fn get_id(&self) -> (r: &MeshId)
        ensures
            r == self.id,
    {
        &self.id
    }
}

} // verus!

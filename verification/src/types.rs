//! Small shared types of the motion subsystem.

use vstd::prelude::*;

verus! {

/// A frame's elapsed time in millionths of a second, already clamped by the
/// host loop.
pub type DeltaTime = i64;

/// Upper bound the host loop puts on a frame's delta time: a twentieth of a
/// second, so a stall never produces a catastrophic jump.
pub const MAX_FRAME_DELTA: DeltaTime = 50_000;

/// Anything that can say which object it belongs to.
pub trait Id {
    /// The characters of the identifier.
    spec fn id_chars(&self) -> Seq<char>;

    /// The identifier itself.
    fn get_id(&self) -> (r: &str)
        ensures
            r@ == self.id_chars(),
    ;
}

/// Whether a mesh is shaded by the scene light or drawn unlit.
#[allow(non_camel_case_types)]
#[derive(Debug, Clone, PartialEq, Eq, Structural)]
pub enum LightType {
    LIGHT,
    NO_LIGHT,
}

/// Clamps a raw frame delta to the host loop's maximum.
pub fn clamp_frame_delta(dt: DeltaTime) -> (r: DeltaTime)
    ensures
        r == (if dt < MAX_FRAME_DELTA {
            dt as int
        } else {
            MAX_FRAME_DELTA as int
        }),
{
    if dt < MAX_FRAME_DELTA {
        dt
    } else {
        MAX_FRAME_DELTA
    }
}

} // verus!

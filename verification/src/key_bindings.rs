//! The vocabulary of rebindable input actions.  The table that maps key
//! chords to actions lives with the host input layer; the motion subsystem
//! only names what an action can be.

use vstd::prelude::*;

verus! {

/// Something a key chord can be bound to.
pub trait Action {
}

/// The four directional movements the fly camera understands.
#[allow(non_camel_case_types)]
#[derive(Debug, Clone, Copy, PartialEq, Eq, Structural)]
pub enum MoveAction {
    FORWARDS,
    BACKWARDS,
    LEFT,
    RIGHT,
}

} // verus!

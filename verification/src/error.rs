//! The two ways a motion operation can fail.

use vstd::prelude::*;

verus! {

/// Failures of the motion subsystem.  Both are object-scoped and
/// recoverable: construction simply did not happen, and a contended frame
/// only skips one visual update.
#[derive(Debug, Clone, PartialEq, Eq)]
pub enum MotionError {
    /// A non-blocking write to a shared transform found it held; the
    /// identifier names the object whose frame was skipped.
    LockContention { id: String },
    /// A motion strategy was asked for with parameters it rejects.
    InvalidParameters,
}

} // verus!

//! Shared transform handles: a reference-counted, reader/writer-locked
//! holder of one [`Transform`], read each frame by a renderer and written by
//! at most one motion strategy.  The writer never blocks: it attempts the
//! lock and reports failure instead of waiting.

use vstd::prelude::*;
use std::sync::Arc;
use crate::transform::Transform;
use crate::vec3::Vec3;

verus! {

#[verifier::external_type_specification]
#[verifier::external_body]
#[verifier::reject_recursive_types(R)]
#[verifier::reject_recursive_types(T)]
pub struct ExRwLock<R, T: ?Sized>(parking_lot::lock_api::RwLock<R, T>);

#[verifier::external_type_specification]
#[verifier::external_body]
pub struct ExRawRwLock(parking_lot::RawRwLock);

/// A shared, lock-guarded transform.  Clones of a handle refer to the same
/// transform; what the lock holds at any moment is shared mutable state, so
/// no contract speaks of it, only of the values this side hands in and the
/// outcome the lock reports.
#[derive(Clone)]
pub struct TransformHandle {
    inner: Arc<parking_lot::RwLock<Transform>>,
}

impl TransformHandle {
    /// Relies on `parking_lot::RwLock::new`: a fresh unlocked holder of `t`.
    #[verifier::external_body]
    pub fn new(t: Transform) -> (r: TransformHandle) {
        TransformHandle { inner: Arc::new(parking_lot::RwLock::new(t)) }
    }

    /// Relies on `parking_lot::RwLock::read`: takes the shared lock,
    /// waiting if a writer holds it, and copies the transform out.
    #[verifier::external_body]
    pub fn read_transform(&self) -> (t: Transform) {
        *self.inner.read()
    }

    /// Relies on `parking_lot::RwLock::try_write`: the exclusive lock is
    /// granted only when no reader or writer holds it, and this never
    /// blocks.  On success the stored position becomes `p` and the result
    /// is `true`; on contention nothing changes and the result is `false`.
    #[verifier::external_body]
    pub fn try_set_position(&self, p: Vec3) -> (ok: bool) {
        match self.inner.try_write() {
            Some(mut guard) => {
                guard.position = p;
                true
            },
            None => false,
        }
    }
}

} // verus!

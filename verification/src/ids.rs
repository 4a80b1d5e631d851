//! Identifiers for meshes and uniform resources.

use vstd::prelude::*;
use crate::types::Id;

verus! {

/// An identifier that names a uniform resource.
pub trait UniformResourceId: Id {
    fn get(&self) -> (r: &str)
        ensures
            r@ == self.id_chars(),
    ;
}

/// Names one uniform buffer.
#[derive(Debug, Clone, Eq, PartialEq)]
pub struct UniformBufferId {
    pub id: String,
}

impl UniformBufferId {
    pub fn new(id: String) -> (r: Self)
        ensures
            r.id == id,
    {
        UniformBufferId { id }
    }
}

impl Id for UniformBufferId {
    open spec fn id_chars(&self) -> Seq<char> {
        self.id@
    }

    fn get_id(&self) -> (r: &str) {
        self.id.as_str()
    }
}

impl UniformResourceId for UniformBufferId {
    fn get(&self) -> (r: &str) {
        self.get_id()
    }
}

/// Names one mesh.
#[derive(Default, Debug, Eq, PartialEq, Clone, Hash)]
pub struct MeshId(pub String);

impl Id for MeshId {
    open spec fn id_chars(&self) -> Seq<char> {
        self.0@
    }

    fn get_id(&self) -> (r: &str) {
        self.0.as_str()
    }
}

} // verus!

//! Small helpers shared across the crate.

use vstd::prelude::*;

verus! {

use vstd::string::StringExecFns;

pub type Width = u32;

pub type Height = u32;

/// A window or surface size in pixels.
#[derive(Debug, Clone, Copy)]
pub struct Size {
    pub width: Width,
    pub height: Height,
}

/// Things that text can be glued onto in place.
pub trait Concatable {
    /// The characters the value shows.
    spec fn chars(&self) -> Seq<char>;

    /// Glues `text` onto the end, in place, and shows the result.
    fn concat(&mut self, text: &str) -> (r: &str)
        ensures
            final(self).chars() == old(self).chars() + text@,
            r@ == final(self).chars(),
    ;
}

impl Concatable for String {
    open spec fn chars(&self) -> Seq<char> {
        self@
    }

    fn concat(&mut self, text: &str) -> (r: &str) {
        let joined = StringExecFns::concat(self.clone(), text);
        *self = joined;
        self.as_str()
    }
}

} // verus!

//! How the host describes a module to itself.

use vstd::prelude::*;

verus! {

/// How a module exchanges data on one of its two sides.
#[derive(Clone, Copy, PartialEq, Eq, Structural, Debug)]
pub enum IoKind {
    Batch,
    /// As an input kind it makes the module a source,
    /// as an output kind a destination.
    External,
    Stream,
}

/// A module as the host knows it. `F` is the call that initialises it.
pub struct Module<F> {
    pub id: String,
    pub name: String,
    pub input_kind: IoKind,
    pub output_kind: IoKind,
    pub init: F,
}

impl<F: Copy> Clone for Module<F> {
    fn clone(&self) -> (copy: Self)
        ensures
            copy == *self,
    {
        Module {
            id: self.id.clone(),
            name: self.name.clone(),
            input_kind: self.input_kind,
            output_kind: self.output_kind,
            init: self.init,
        }
    }
}

} // verus!

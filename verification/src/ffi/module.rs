//! How a module is named on the boundary.

use vstd::prelude::*;
use crate::ffi::types::std_types::CharString;

verus! {

/// The names of a module.
#[derive(Debug)]
pub struct Module {
    /// The name for people to read.
    pub name: CharString,
    /// The name by which the pipeline's configuration refers to the module.
    pub ref_id: CharString,
}

} // verus!

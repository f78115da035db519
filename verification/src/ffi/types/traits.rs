//! Copies that share storage.

use vstd::prelude::*;
use std::sync::Arc;

verus! {

/// A second value over the same storage as the first.
///
/// A shallow copy is for handing a value to a call across the boundary while
/// its owner keeps it: the copy shows what the first value shows, and nothing is
/// duplicated. It is no clone, which has storage of its own.
pub trait ShallowCopy: View + Sized {
    fn shallow_copy(&self) -> (copy: Self)
        ensures
            copy@ == self@,
    ;
}

/// `Arc::clone`: another pointer to the same allocation, which holds the
/// same value.
#[verifier::external_body]
pub(crate) fn share<T>(storage: &Arc<T>) -> (shared: Arc<T>)
    ensures
        shared == *storage,
{
    Arc::clone(storage)
}

} // verus!

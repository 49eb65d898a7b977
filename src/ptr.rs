use vstd::prelude::*;

use crate::id::Id;

verus! {

/// The portable form of a pointer to a resource: the identifier of a registered
/// resource, or the resource itself.
///
/// This is what crosses a serialization boundary; the two cases are tagged `r` and `o`.
#[derive(Clone)]
pub enum RegPtr<T> {
    /// The identifier of a resource in the registry of `T`.
    Registered(Id<T>),
    /// A resource that no registry holds.
    Orphan(Box<T>),
}

} // verus!

use vstd::prelude::*;

verus! {

/// A component type that can populate a storage on its own: the storage
/// creates a fresh value with `new` whenever an entity is added to it.
pub trait Component: Sized {
    /// Create the component value a newly added entity starts with.
    fn new() -> (component: Self);
}

} // verus!

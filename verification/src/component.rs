use vstd::prelude::*;

verus! {

/// Marker for the plain data types that can be attached to entities.
///
/// A storage holds values of exactly one component type, and a world is
/// instantiated over the component type (usually an enum over the
/// application's component structs) that its storages hold.
pub trait Component: Sized {

}

} // verus!

use vstd::prelude::*;

verus! {

/// An index pointing to a unique entity.
pub type EntityIndex = u64;

/// An owned handle to a unique entity.
///
/// Only the world that created the entity should construct these.
#[derive(Clone, Copy)]
pub struct Entity {
    index: u64,
}

impl View for Entity {
    type V = u64;

    closed spec fn view(&self) -> u64 {
        self.index
    }
}

impl Entity {
    /// Create a new handle for the entity at `index`.
    pub fn new(index: u64) -> (entity: Entity)
        ensures
            entity@ == index,
    {
        Entity { index }
    }

    /// Get the index of the entity.
    pub fn index(&self) -> (index: u64)
        ensures
            index == self@,
    {
        self.index
    }
}

} // verus!

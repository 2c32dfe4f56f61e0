use vstd::prelude::*;

verus! {

/// An index pointing to a unique entity.
pub type EntityIndex = u64;

/// A bitset recording which component types an entity carries:
/// bit `k` is set exactly when the `k`-th registered component type
/// is attached to the entity.
pub type ComponentMask = u64;

/// A unique entity: it carries no data of its own beyond the mask of
/// the component types currently attached to it.
#[derive(Clone, Copy)]
pub struct Entity {
    components_mask: ComponentMask,
}

impl View for Entity {
    type V = ComponentMask;

    closed spec fn view(&self) -> ComponentMask {
        self.components_mask
    }
}

impl Entity {
    /// Create a new entity with no components attached.
    pub fn new() -> (entity: Entity)
        ensures
            entity@ == 0u64,
    {
        Entity { components_mask: 0 }
    }

    /// Get the mask of the entity.
    pub fn components_mask(&self) -> (mask: ComponentMask)
        ensures
            mask == self@,
    {
        self.components_mask
    }

    /// Set every bit of `component_mask` in the entity's mask.
    pub fn add_component(&mut self, component_mask: ComponentMask)
        ensures
            final(self)@ == old(self)@ | component_mask,
    {
        self.components_mask |= component_mask;
    }

    /// Clear every bit of `component_mask` in the entity's mask.
    pub fn remove_component(&mut self, component_mask: ComponentMask)
        ensures
            final(self)@ == old(self)@ & !component_mask,
    {
        self.components_mask &= !component_mask;
    }
}

} // verus!

use vstd::prelude::*;

use crate::component::Component;
use crate::entity::EntityIndex;
use std::collections::hash_map::Entry;
use std::collections::HashMap;

verus! {

broadcast use vstd::std_specs::hash::group_hash_axioms;

/// The operations of a component storage: a mapping from entity index to
/// the component value that the entity carries, for one component type.
pub trait StorageTrait<T: Component>: View<V = Map<EntityIndex, T>> + Sized {
    /// Create a new, empty component storage.
    fn new() -> (storage: Self)
        ensures
            storage@ == Map::<EntityIndex, T>::empty(),
    ;

    /// Associate `component` with `index`, overwriting any previous value.
    fn add_entity(&mut self, index: EntityIndex, component: T)
        ensures
            final(self)@ == old(self)@.insert(index, component),
    ;

    /// Drop the component stored for `index`; a no-op if none is stored.
    fn remove_entity(&mut self, index: EntityIndex)
        ensures
            final(self)@ == old(self)@.remove(index),
    ;

    /// Get a reference to the component stored for `index`.
    fn get(&self, index: EntityIndex) -> (component: &T)
        requires
            self@.contains_key(index),
        ensures
            *component == self@[index],
    ;

    /// Get a mutable reference to the component stored for `index`.
    fn get_mut(&mut self, index: EntityIndex) -> (component: &mut T)
        requires
            old(self)@.contains_key(index),
        ensures
            *component == old(self)@[index],
            final(self)@ == old(self)@.insert(index, *final(component)),
    ;
}

/// A hash-indexed component storage: one map from entity index to component
/// value per component type.
pub struct Storage<T: Component> {
    entity_components: HashMap<EntityIndex, T>,
}

impl<T: Component> View for Storage<T> {
    type V = Map<EntityIndex, T>;

    closed spec fn view(&self) -> Map<EntityIndex, T> {
        self.entity_components@
    }
}

impl<T: Component> StorageTrait<T> for Storage<T> {
    fn new() -> (storage: Storage<T>) {
        Storage { entity_components: HashMap::new() }
    }

    fn add_entity(&mut self, index: EntityIndex, component: T) {
        self.entity_components.insert(index, component);
    }

    fn remove_entity(&mut self, index: EntityIndex) {
        self.entity_components.remove(&index);
    }

    fn get(&self, index: EntityIndex) -> (component: &T) {
        match self.entity_components.get(&index) {
            Some(component) => component,
            None => vstd::pervasive::unreached(),
        }
    }

    fn get_mut(&mut self, index: EntityIndex) -> (component: &mut T) {
        match self.entity_components.entry(index) {
            Entry::Occupied(occupied) => occupied.into_mut(),
            Entry::Vacant(_) => vstd::pervasive::unreached(),
        }
    }
}

impl<T: Component> Storage<T> {
    /// The number of entities that currently have a component stored here.
    pub fn len(&self) -> (n: usize)
        ensures
            n == self@.len(),
    {
        self.entity_components.len()
    }

    /// Whether a component is stored for `index`.
    pub fn contains(&self, index: EntityIndex) -> (stored: bool)
        ensures
            stored == self@.contains_key(index),
    {
        self.entity_components.contains_key(&index)
    }
}

} // verus!

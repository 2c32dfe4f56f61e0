use vstd::prelude::*;

use super::component::Component;
use super::entity::EntityIndex;
use std::collections::hash_map::Entry;
use std::collections::HashMap;

verus! {

broadcast use vstd::std_specs::hash::group_hash_axioms;

/// The operations of a self-populating component storage: entities are added
/// by index alone, and the storage creates each component value itself with
/// [`Component::new`].
pub trait StorageTrait<T: Component>: View<V = Map<EntityIndex, T>> + Sized {
    /// Create a new, empty component storage.
    fn new() -> (storage: Self)
        ensures
            storage@ == Map::<EntityIndex, T>::empty(),
    ;

    /// Store a freshly created component value for `index`, overwriting any
    /// previous value.
    fn add_entity(&mut self, index: EntityIndex)
        ensures
            final(self)@.contains_key(index),
            final(self)@.remove(index) == old(self)@.remove(index),
    ;

    /// Drop the component stored for `index`; a no-op if none is stored.
    fn remove_entity(&mut self, index: EntityIndex)
        ensures
            final(self)@ == old(self)@.remove(index),
    ;

    /// Get a reference to the component stored for `index`.
    fn get(&self, index: EntityIndex) -> (component: &T)
        requires
            self@.contains_key(index),
        ensures
            *component == self@[index],
    ;

    /// Get a mutable reference to the component stored for `index`.
    fn get_mut(&mut self, index: EntityIndex) -> (component: &mut T)
        requires
            old(self)@.contains_key(index),
        ensures
            *component == old(self)@[index],
            final(self)@ == old(self)@.insert(index, *final(component)),
    ;
}

/// A hash-indexed, self-populating component storage.
pub struct Storage<T: Component> {
    entity_components: HashMap<EntityIndex, T>,
}

impl<T: Component> View for Storage<T> {
    type V = Map<EntityIndex, T>;

    closed spec fn view(&self) -> Map<EntityIndex, T> {
        self.entity_components@
    }
}

impl<T: Component> StorageTrait<T> for Storage<T> {
    fn new() -> (storage: Storage<T>) {
        Storage { entity_components: HashMap::new() }
    }

    fn add_entity(&mut self, index: EntityIndex) {
        let component = T::new();
        self.entity_components.insert(index, component);
        proof {
            assert(self.entity_components@.remove(index) =~= old(
                self,
            ).entity_components@.remove(index));
        }
    }

    fn remove_entity(&mut self, index: EntityIndex) {
        self.entity_components.remove(&index);
    }

    fn get(&self, index: EntityIndex) -> (component: &T) {
        match self.entity_components.get(&index) {
            Some(component) => component,
            None => vstd::pervasive::unreached(),
        }
    }

    fn get_mut(&mut self, index: EntityIndex) -> (component: &mut T) {
        match self.entity_components.entry(index) {
            Entry::Occupied(occupied) => occupied.into_mut(),
            Entry::Vacant(_) => vstd::pervasive::unreached(),
        }
    }
}

impl<T: Component> Storage<T> {
    /// The number of entities that currently have a component stored here.
    pub fn len(&self) -> (n: usize)
        ensures
            n == self@.len(),
    {
        self.entity_components.len()
    }
}

} // verus!

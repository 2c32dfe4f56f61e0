pub mod component;
pub mod entity;
pub mod storage;
pub mod system;
pub mod world;

use vstd::prelude::*;

use crate::component::Component;
use crate::entity::{ComponentMask, EntityIndex};
use crate::storage::Storage;
use crate::system::System;
use crate::world::{
    component_added, component_registered, component_removed, entity_created, same_entities,
    ComponentKey, EcsError, World, MASK_BITS,
};

verus! {

/// What a system asks of the tick loop: keep going, or stop after the
/// current tick. Stopping is a request, not an error.
#[derive(Clone, Copy, Debug, PartialEq, Eq, Structural)]
pub enum UpdateStatus {
    Continue,
    Exit,
}

/// The engine: a [`World`] together with the ordered list of registered
/// systems that it runs, in registration order, once per tick.
///
/// The entity and component operations are thin pass-throughs to the world,
/// with the same contracts; the engine adds system registration and the tick
/// dispatch itself.
pub struct Engine<C: Component, S: System<C>> {
    world: World<C>,
    systems: Vec<S>,
}

impl<C: Component, S: System<C>> Engine<C, S> {
    /// The world this engine drives.
    pub closed spec fn spec_world(self) -> World<C> {
        self.world
    }

    /// The registered systems, in registration and execution order.
    pub closed spec fn spec_systems(self) -> Seq<S> {
        self.systems@
    }

    /// The engine is well-formed when its world is.
    pub open spec fn wf(self) -> bool {
        self.spec_world().wf()
    }

    /// Create a new engine: an empty world and no systems.
    pub fn new() -> (engine: Engine<C, S>)
        ensures
            engine.wf(),
            engine.spec_world().n_entities() == 0,
            engine.spec_world().n_components() == 0,
            forall|k: ComponentKey| !(#[trigger] engine.spec_world().registered(k)),
            engine.spec_systems().len() == 0,
    {
        Engine { world: World::new(), systems: Vec::new() }
    }

    /// How many entities have been created in this engine's world.
    pub fn entities(&self) -> (count: u64)
        ensures
            count == self.spec_world().n_entities(),
    {
        self.world.entities()
    }

    /// The index that the next call to `create_entity` will return.
    pub fn next_free(&self) -> (index: EntityIndex)
        ensures
            index == self.spec_world().n_entities(),
    {
        self.world.next_free()
    }

    /// Whether `index` names an entity created in this engine's world.
    pub fn contains_entity(&self, index: EntityIndex) -> (known: bool)
        ensures
            known <==> index < self.spec_world().n_entities(),
    {
        self.world.contains_entity(index)
    }

    /// How many component types have been registered in this engine's world.
    pub fn component_count(&self) -> (count: usize)
        ensures
            count == self.spec_world().n_components(),
    {
        self.world.component_count()
    }

    /// How many systems have been registered.
    pub fn system_count(&self) -> (count: usize)
        ensures
            count == self.spec_systems().len(),
    {
        self.systems.len()
    }

    /// Create a new entity and return its index.
    pub fn create_entity(&mut self) -> (index: EntityIndex)
        requires
            old(self).wf(),
        ensures
            final(self).wf(),
            entity_created(old(self).spec_world(), final(self).spec_world(), index),
            final(self).spec_systems() == old(self).spec_systems(),
    {
        self.world.create_entity()
    }

    /// Register `key` as a new component type; see
    /// [`World::register_component`].
    pub fn register_component(&mut self, key: ComponentKey) -> (result: Result<
        ComponentMask,
        EcsError,
    >)
        requires
            old(self).wf(),
        ensures
            final(self).wf(),
            final(self).spec_systems() == old(self).spec_systems(),
            old(self).spec_world().registered(key) ==> result == Err::<ComponentMask, EcsError>(
                EcsError::DuplicateComponent(key),
            ) && *final(self) == *old(self),
            !old(self).spec_world().registered(key) && old(self).spec_world().n_components()
                >= MASK_BITS ==> result == Err::<ComponentMask, EcsError>(
                EcsError::MaskSpaceExhausted,
            ) && *final(self) == *old(self),
            !old(self).spec_world().registered(key) && old(self).spec_world().n_components()
                < MASK_BITS ==> result == Ok::<ComponentMask, EcsError>(
                1u64 << (old(self).spec_world().n_components() as u64),
            ) && component_registered(old(self).spec_world(), final(self).spec_world(), key),
    {
        self.world.register_component(key)
    }

    /// Attach `component` to the entity at `entity_index`; see
    /// [`World::add_entity_component`].
    pub fn add_entity_component(&mut self, entity_index: EntityIndex, key: ComponentKey, component: C) -> (result: Result<(), EcsError>)
        requires
            old(self).wf(),
        ensures
            final(self).wf(),
            final(self).spec_systems() == old(self).spec_systems(),
            entity_index >= old(self).spec_world().n_entities() ==> result == Err::<(), EcsError>(
                EcsError::UnknownEntity(entity_index),
            ) && *final(self) == *old(self),
            entity_index < old(self).spec_world().n_entities() && !old(self).spec_world().registered(key) ==> result == Err::<(), EcsError>(
                EcsError::UnregisteredComponent(key),
            ) && *final(self) == *old(self),
            entity_index < old(self).spec_world().n_entities() && old(self).spec_world().registered(
                key,
            ) ==> result == Ok::<(), EcsError>(()) && component_added(
                old(self).spec_world(),
                final(self).spec_world(),
                entity_index,
                key,
                component,
            ),
    {
        self.world.add_entity_component(entity_index, key, component)
    }

    /// Detach the component of `key` from the entity at `entity_index`; see
    /// [`World::remove_entity_component`].
    pub fn remove_entity_component(&mut self, entity_index: EntityIndex, key: ComponentKey) -> (result: Result<(), EcsError>)
        requires
            old(self).wf(),
        ensures
            final(self).wf(),
            final(self).spec_systems() == old(self).spec_systems(),
            entity_index >= old(self).spec_world().n_entities() ==> result == Err::<(), EcsError>(
                EcsError::UnknownEntity(entity_index),
            ) && *final(self) == *old(self),
            entity_index < old(self).spec_world().n_entities() && !old(self).spec_world().registered(key) ==> result == Err::<(), EcsError>(
                EcsError::UnregisteredComponent(key),
            ) && *final(self) == *old(self),
            entity_index < old(self).spec_world().n_entities() && old(self).spec_world().registered(
                key,
            ) ==> result == Ok::<(), EcsError>(()) && component_removed(
                old(self).spec_world(),
                final(self).spec_world(),
                entity_index,
                key,
            ),
    {
        self.world.remove_entity_component(entity_index, key)
    }

    /// The component mask currently carried by the entity at `index`; see
    /// [`World::get_entity_mask`].
    pub fn get_entity_mask(&self, index: EntityIndex) -> (result: Result<ComponentMask, EcsError>)
        ensures
            index < self.spec_world().n_entities() ==> result == Ok::<ComponentMask, EcsError>(
                self.spec_world().entity_mask(index),
            ),
            index >= self.spec_world().n_entities() ==> result == Err::<ComponentMask, EcsError>(
                EcsError::UnknownEntity(index),
            ),
    {
        self.world.get_entity_mask(index)
    }

    /// The single-bit mask assigned to `key`; see [`World::get_mask`].
    pub fn get_mask(&self, key: ComponentKey) -> (result: Result<ComponentMask, EcsError>)
        requires
            self.wf(),
        ensures
            self.spec_world().registered(key) ==> result == Ok::<ComponentMask, EcsError>(
                self.spec_world().mask_of(key),
            ),
            !self.spec_world().registered(key) ==> result == Err::<ComponentMask, EcsError>(
                EcsError::UnregisteredComponent(key),
            ),
    {
        self.world.get_mask(key)
    }

    /// Shared access to the storage registered for `key`; see
    /// [`World::get_component`].
    pub fn get_component(&self, key: ComponentKey) -> (result: Result<&Storage<C>, EcsError>)
        requires
            self.wf(),
        ensures
            match result {
                Ok(storage) => self.spec_world().registered(key) && storage@
                    == self.spec_world().storage(key),
                Err(err) => !self.spec_world().registered(key) && err
                    == EcsError::UnregisteredComponent(key),
            },
    {
        self.world.get_component(key)
    }

    /// Exclusive access to the storage registered for `key`; see
    /// [`World::get_component_mut`].
    pub fn get_component_mut(&mut self, key: ComponentKey) -> (storage: &mut Storage<C>)
        requires
            old(self).wf(),
            old(self).spec_world().registered(key),
        ensures
            (*storage)@ == old(self).spec_world().storage(key),
            final(self).spec_world().storage(key) == (*final(storage))@,
            final(self).spec_systems() == old(self).spec_systems(),
            same_entities(old(self).spec_world(), final(self).spec_world()),
            final(self).spec_world().n_components() == old(self).spec_world().n_components(),
            forall|k2: ComponentKey| (#[trigger] final(self).spec_world().registered(k2) <==> old(self).spec_world().registered(k2)),
            forall|k2: ComponentKey| #[trigger]
                old(self).spec_world().registered(k2) ==> final(self).spec_world().mask_of(k2)
                    == old(self).spec_world().mask_of(k2),
            forall|k2: ComponentKey|
                k2 != key && #[trigger] old(self).spec_world().registered(k2) ==> final(self).spec_world().storage(k2) == old(self).spec_world().storage(k2),
    {
        self.world.get_component_mut(key)
    }

    /// The indices of exactly those entities whose mask is a superset of
    /// `mask`, in increasing order; see [`World::entities_matching`].
    pub fn entities_matching(&self, mask: ComponentMask) -> (matching: Vec<EntityIndex>)
        ensures
            forall|e: EntityIndex| #[trigger]
                matching@.contains(e) <==> (e < self.spec_world().n_entities()
                && self.spec_world().entity_mask(e) & mask == mask),
            forall|i: int, j: int| 0 <= i < j < matching@.len() ==> matching@[i] < matching@[j],
    {
        self.world.entities_matching(mask)
    }

    /// Check the mask/storage agreement at run time; see
    /// [`World::check_consistency`].
    pub fn check_consistency(&self) -> (consistent: bool)
        ensures
            self.wf() ==> consistent,
            consistent ==> forall|key: ComponentKey, e: EntityIndex|
                #![trigger self.spec_world().storage(key).contains_key(e)]
                self.spec_world().registered(key) && self.spec_world().bit_of(key)
                    < self.spec_world().n_components() && e < self.spec_world().n_entities() ==> (
                self.spec_world().storage(key).contains_key(e) <==> self.spec_world().entity_mask(e)
                    & self.spec_world().mask_of(key) == self.spec_world().mask_of(key)),
    {
        self.world.check_consistency()
    }

    /// Append `system` to the list of systems run on every tick; systems run
    /// in registration order.
    pub fn register_system(&mut self, system: S)
        ensures
            final(self).spec_systems() == old(self).spec_systems().push(system),
            final(self).spec_world() == old(self).spec_world(),
    {
        self.systems.push(system);
    }

    /// Run one tick: invoke every registered system in registration order on
    /// this engine's world, handing each the tick's batch of external
    /// events.
    ///
    /// The tick short-circuits as soon as a system returns
    /// `Ok(UpdateStatus::Exit)` or an error: later systems are not run for
    /// that tick, and the status or error is returned. Otherwise every
    /// system runs and the tick returns `Ok(UpdateStatus::Continue)`.
    ///
    /// What each system does to the world is the system's own affair, so
    /// nothing is promised of the world's state afterwards beyond what an
    /// empty system list guarantees.
    pub fn update(&mut self, events: &[S::Event]) -> (result: Result<UpdateStatus, String>)
        ensures
            final(self).spec_systems() == old(self).spec_systems(),
            old(self).spec_systems().len() == 0 ==> result == Ok::<UpdateStatus, String>(
                UpdateStatus::Continue,
            ) && final(self).spec_world() == old(self).spec_world(),
    {
        let mut index: usize = 0;
        while index < self.systems.len()
            invariant
                index <= self.systems@.len(),
                self.systems@ == old(self).systems@,
                old(self).systems@.len() == 0 ==> self.world == old(self).world,
            decreases self.systems@.len() - index,
        {
            let system = &self.systems[index];
            match system.update(&mut self.world, events) {
                Ok(UpdateStatus::Continue) => {},
                Ok(UpdateStatus::Exit) => {
                    return Ok(UpdateStatus::Exit);
                },
                Err(err) => {
                    return Err(err);
                },
            }
            index += 1;
        }
        Ok(UpdateStatus::Continue)
    }
}

impl<C: Component, S: System<C>> Default for Engine<C, S> {
    /// Create a new engine, as [`Engine::new`] does.
    fn default() -> (engine: Engine<C, S>)
        ensures
            engine.wf(),
            engine.spec_world().n_entities() == 0,
            engine.spec_world().n_components() == 0,
            forall|k: ComponentKey| !(#[trigger] engine.spec_world().registered(k)),
            engine.spec_systems().len() == 0,
    {
        Engine::new()
    }
}

} // verus!

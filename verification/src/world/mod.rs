pub mod component;
pub mod entity;
pub mod storage;

use vstd::prelude::*;

use crate::component::Component;
use crate::entity::{ComponentMask, Entity, EntityIndex};
use crate::storage::{Storage, StorageTrait};
use std::collections::HashMap;

verus! {

broadcast use
    vstd::std_specs::hash::group_hash_axioms,
    vstd::seq_lib::lemma_seq_contains_after_push;

/// A stable identifier that the caller assigns to each component type.
///
/// The registry maps every key to a single mask bit and to the storage that
/// holds the values of that component type; keys play the role that a
/// language-level type identity would play in a registry with type erasure.
pub type ComponentKey = u64;

/// The number of distinct component types a world can register: one per bit
/// of a [`ComponentMask`].
pub const MASK_BITS: u64 = 64;

/// The ways an operation on a [`World`] can fail.
///
/// All of these signal setup bugs, not transient faults: the caller is
/// expected to stop rather than continue with a world it misunderstands.
#[derive(Clone, Copy, Debug, PartialEq, Eq, Structural)]
pub enum EcsError {
    /// The entity index was never returned by `create_entity` on this world.
    UnknownEntity(EntityIndex),
    /// The component key was never registered on this world.
    UnregisteredComponent(ComponentKey),
    /// The component key is already registered; a key's mask bit is permanent
    /// and is never reassigned.
    DuplicateComponent(ComponentKey),
    /// The entity exists and the key is registered, but no component value is
    /// stored for the pair; with a well-formed world this only happens when
    /// the caller did not filter by mask first.
    MissingComponent(ComponentKey, EntityIndex),
    /// Every mask bit is already assigned to a registered component type.
    MaskSpaceExhausted,
}

/// The global state of a running game: the entity table, the component type
/// registry, and one storage per registered component type.
///
/// Every access to masks and storages goes through the world, which keeps the
/// two sides of the bookkeeping consistent: an entity's mask has a type's bit
/// set exactly when that type's storage holds a value for the entity.
pub struct World<C: Component> {
    /// The mask record of every created entity; the entity's index is its
    /// position in this table.
    entities: Vec<Entity>,

    /// The mask bit assigned to each registered component key.
    component_bits: HashMap<ComponentKey, u64>,

    /// The component storages, one per registered key, indexed by the key's
    /// assigned mask bit.
    components: Vec<Storage<C>>,
}

impl<C: Component> World<C> {
    /// How many entities have been created in this world.
    pub closed spec fn n_entities(self) -> nat {
        self.entities@.len()
    }

    /// How many component types have been registered in this world.
    pub closed spec fn n_components(self) -> nat {
        self.components@.len()
    }

    /// Whether `key` has been registered as a component type.
    pub closed spec fn registered(self, key: ComponentKey) -> bool {
        self.component_bits@.contains_key(key)
    }

    /// The mask bit position assigned to `key` (meaningful when registered).
    pub closed spec fn bit_of(self, key: ComponentKey) -> u64 {
        self.component_bits@[key]
    }

    /// The single-bit mask assigned to `key` (meaningful when registered).
    pub open spec fn mask_of(self, key: ComponentKey) -> ComponentMask {
        1u64 << self.bit_of(key)
    }

    /// The component mask of entity `index` (meaningful when created).
    pub closed spec fn entity_mask(self, index: EntityIndex) -> ComponentMask {
        self.entities@[index as int]@
    }

    /// The contents of the storage registered for `key` (meaningful when
    /// registered): which entities carry the component, and with what value.
    pub closed spec fn storage(self, key: ComponentKey) -> Map<EntityIndex, C> {
        self.components@[self.bit_of(key) as int]@
    }

    /// Well-formedness of the world's bookkeeping:
    /// - there is one storage per assigned bit, and at most 64 of them;
    /// - distinct keys hold distinct bits;
    /// - a storage holds a value for an entity exactly when the entity exists
    ///   and its mask has the storage's bit set;
    /// - entity masks use assigned bits only.
    pub closed spec fn wf(self) -> bool {
        &&& self.components@.len() <= MASK_BITS
        &&& forall|k: ComponentKey| #[trigger]
            self.component_bits@.contains_key(k) ==> self.component_bits@[k]
                < self.components@.len()
        &&& forall|k1: ComponentKey, k2: ComponentKey|
            self.component_bits@.contains_key(k1) && self.component_bits@.contains_key(k2) && k1
                != k2 ==> #[trigger] self.component_bits@[k1] != #[trigger] self.component_bits@[k2]
        &&& forall|i: int, e: EntityIndex|
            0 <= i < self.components@.len() ==> (#[trigger] self.components@[i]@.contains_key(e)
                <==> e < self.entities@.len() && self.entities@[e as int]@ & (1u64 << (i as u64))
                == (1u64 << (i as u64)))
        &&& forall|e: int, b: u64|
            0 <= e < self.entities@.len() && self.components@.len() <= b < MASK_BITS
                ==> #[trigger] (self.entities@[e]@ & (1u64 << b)) == 0
    }

    /// A single mask bit is never zero.
    proof fn lemma_bit_nonzero(b: u64)
        requires
            b < 64,
        ensures
            (1u64 << b) != 0,
            0u64 & (1u64 << b) == 0,
    {
        assert((1u64 << b) != 0 && 0u64 & (1u64 << b) == 0) by (bit_vector)
            requires
                b < 64,
        ;
    }

    /// Setting bit `b` leaves every other bit as it was.
    proof fn lemma_set_bit(m: u64, b: u64, j: u64)
        requires
            b < 64,
            j < 64,
        ensures
            (m | (1u64 << b)) & (1u64 << b) == (1u64 << b),
            b != j ==> ((m | (1u64 << b)) & (1u64 << j)) == (m & (1u64 << j)),
    {
        assert((m | (1u64 << b)) & (1u64 << b) == (1u64 << b)) by (bit_vector)
            requires
                b < 64,
        ;
        assert(b != j ==> ((m | (1u64 << b)) & (1u64 << j)) == (m & (1u64 << j))) by (bit_vector)
            requires
                b < 64 && j < 64,
        ;
    }

    /// Clearing bit `b` leaves every other bit as it was.
    proof fn lemma_clear_bit(m: u64, b: u64, j: u64)
        requires
            b < 64,
            j < 64,
        ensures
            (m & !(1u64 << b)) & (1u64 << b) == 0,
            b != j ==> ((m & !(1u64 << b)) & (1u64 << j)) == (m & (1u64 << j)),
    {
        assert((m & !(1u64 << b)) & (1u64 << b) == 0) by (bit_vector)
            requires
                b < 64,
        ;
        assert(b != j ==> ((m & !(1u64 << b)) & (1u64 << j)) == (m & (1u64 << j))) by (bit_vector)
            requires
                b < 64 && j < 64,
        ;
    }

    /// Distinct bit positions give distinct, disjoint single-bit masks.
    proof fn lemma_distinct_bits(b: u64, j: u64)
        requires
            b < 64,
            j < 64,
            b != j,
        ensures
            (1u64 << b) != (1u64 << j),
            (1u64 << b) & (1u64 << j) == 0,
    {
        assert((1u64 << b) != (1u64 << j) && (1u64 << b) & (1u64 << j) == 0) by (bit_vector)
            requires
                b < 64 && j < 64 && b != j,
        ;
    }

    /// Create a new, empty world: no entities, no registered components.
    pub fn new() -> (world: World<C>)
        ensures
            world.wf(),
            world.n_entities() == 0,
            world.n_components() == 0,
            forall|k: ComponentKey| !(#[trigger] world.registered(k)),
    {
        World { entities: Vec::new(), component_bits: HashMap::new(), components: Vec::new() }
    }

    /// How many entities have been created in this world.
    pub fn entities(&self) -> (count: u64)
        ensures
            count == self.n_entities(),
    {
        self.entities.len() as u64
    }

    /// The index that the next call to `create_entity` will return.
    pub fn next_free(&self) -> (index: EntityIndex)
        ensures
            index == self.n_entities(),
    {
        self.entities.len() as u64
    }

    /// Whether `index` names an entity created in this world.
    pub fn contains_entity(&self, index: EntityIndex) -> (known: bool)
        ensures
            known <==> index < self.n_entities(),
    {
        index < self.entities.len() as u64
    }

    /// How many component types have been registered in this world.
    pub fn component_count(&self) -> (count: usize)
        ensures
            count == self.n_components(),
    {
        self.components.len()
    }

    /// Create a new entity with an empty mask and return its index.
    ///
    /// Indices are assigned monotonically and never reused.
    pub fn create_entity(&mut self) -> (index: EntityIndex)
        requires
            old(self).wf(),
        ensures
            final(self).wf(),
            entity_created(*old(self), *final(self), index),
    {
        let index = self.entities.len() as u64;
        self.entities.push(Entity::new());
        proof {
            assert forall|b: u64| b < 64 implies 0u64 & (1u64 << b) == 0 && (1u64 << b) != 0 by {
                Self::lemma_bit_nonzero(b);
            }
        }
        index
    }

    /// Register `key` as a new component type: assign it the next free mask
    /// bit and allocate an empty storage for it.
    ///
    /// Bits are assigned in registration order starting at bit 0, and a key's
    /// bit is permanent: registering the same key again is rejected, and
    /// there is no way to unregister. Fails with `DuplicateComponent` on a
    /// key already registered and with `MaskSpaceExhausted` once every mask
    /// bit is assigned; it succeeds on every other input.
    pub fn register_component(&mut self, key: ComponentKey) -> (result: Result<
        ComponentMask,
        EcsError,
    >)
        requires
            old(self).wf(),
        ensures
            final(self).wf(),
            old(self).registered(key) ==> result == Err::<ComponentMask, EcsError>(
                EcsError::DuplicateComponent(key),
            ) && *final(self) == *old(self),
            !old(self).registered(key) && old(self).n_components() >= MASK_BITS ==> result
                == Err::<ComponentMask, EcsError>(EcsError::MaskSpaceExhausted) && *final(self)
                == *old(self),
            !old(self).registered(key) && old(self).n_components() < MASK_BITS ==> result
                == Ok::<ComponentMask, EcsError>(1u64 << (old(self).n_components() as u64))
                && component_registered(*old(self), *final(self), key),
    {
        if self.component_bits.contains_key(&key) {
            return Err(EcsError::DuplicateComponent(key));
        }
        let next_bit = self.components.len();
        if next_bit as u64 >= MASK_BITS {
            return Err(EcsError::MaskSpaceExhausted);
        }
        let storage: Storage<C> = Storage::new();
        self.components.push(storage);
        self.component_bits.insert(key, next_bit as u64);
        proof {
            assert forall|e: int, b: u64|
                0 <= e < self.entities@.len() && b < 64 implies (self.entities@[e]@ & (1u64 << b)
                == (1u64 << b)) == (old(self).entities@[e]@ & (1u64 << b) == (1u64 << b)) by {
                Self::lemma_bit_nonzero(b);
            }
            assert forall|e: int|
                0 <= e < self.entities@.len() implies self.entities@[e]@ & (1u64 << (next_bit
                as u64)) == 0 by {
                assert(old(self).wf());
            }
            assert forall|b: u64| b < 64 implies (1u64 << b) != 0 by {
                Self::lemma_bit_nonzero(b);
            }
        }
        Ok(1u64 << (next_bit as u64))
    }

    /// The single-bit mask assigned to `key`.
    ///
    /// Fails with `UnregisteredComponent` exactly when `key` was never
    /// registered.
    pub fn get_mask(&self, key: ComponentKey) -> (result: Result<ComponentMask, EcsError>)
        requires
            self.wf(),
        ensures
            self.registered(key) ==> result == Ok::<ComponentMask, EcsError>(self.mask_of(key)),
            !self.registered(key) ==> result == Err::<ComponentMask, EcsError>(
                EcsError::UnregisteredComponent(key),
            ),
    {
        match self.component_bits.get(&key) {
            Some(bit) => Ok(1u64 << *bit),
            None => Err(EcsError::UnregisteredComponent(key)),
        }
    }

    /// Attach `component` to the entity at `entity_index`: set the bit of
    /// `key` in the entity's mask and store the value in the storage of
    /// `key`, as one operation, overwriting any previous value.
    ///
    /// Fails with `UnknownEntity` when the entity was never created and with
    /// `UnregisteredComponent` when `key` was never registered; it succeeds
    /// on every other input.
    pub fn add_entity_component(&mut self, entity_index: EntityIndex, key: ComponentKey, component: C) -> (result: Result<(), EcsError>)
        requires
            old(self).wf(),
        ensures
            final(self).wf(),
            entity_index >= old(self).n_entities() ==> result == Err::<(), EcsError>(
                EcsError::UnknownEntity(entity_index),
            ) && *final(self) == *old(self),
            entity_index < old(self).n_entities() && !old(self).registered(key) ==> result
                == Err::<(), EcsError>(EcsError::UnregisteredComponent(key)) && *final(self)
                == *old(self),
            entity_index < old(self).n_entities() && old(self).registered(key) ==> result
                == Ok::<(), EcsError>(()) && component_added(
                *old(self),
                *final(self),
                entity_index,
                key,
                component,
            ),
    {
        if entity_index >= self.entities.len() as u64 {
            return Err(EcsError::UnknownEntity(entity_index));
        }
        let bit: u64 = match self.component_bits.get(&key) {
            Some(bit) => *bit,
            None => { return Err(EcsError::UnregisteredComponent(key)); },
        };
        let ghost old_mask = self.entities@[entity_index as int]@;
        let entity = &mut self.entities[entity_index as usize];
        entity.add_component(1u64 << bit);
        let storage = &mut self.components[bit as usize];
        storage.add_entity(entity_index, component);
        proof {
            assert forall|j: u64| j < 64 implies ((old_mask | (1u64 << bit)) & (1u64 << j)) == (
            if j == bit {
                1u64 << j
            } else {
                old_mask & (1u64 << j)
            }) by {
                Self::lemma_set_bit(old_mask, bit, j);
            }
        }
        Ok(())
    }

    /// Detach the component of `key` from the entity at `entity_index`:
    /// clear the bit of `key` in the entity's mask and drop any value from
    /// the storage of `key`, as one operation. Detaching a component the
    /// entity does not carry leaves the world as it was.
    ///
    /// Fails with `UnknownEntity` when the entity was never created and with
    /// `UnregisteredComponent` when `key` was never registered; it succeeds
    /// on every other input.
    pub fn remove_entity_component(&mut self, entity_index: EntityIndex, key: ComponentKey) -> (result: Result<(), EcsError>)
        requires
            old(self).wf(),
        ensures
            final(self).wf(),
            entity_index >= old(self).n_entities() ==> result == Err::<(), EcsError>(
                EcsError::UnknownEntity(entity_index),
            ) && *final(self) == *old(self),
            entity_index < old(self).n_entities() && !old(self).registered(key) ==> result
                == Err::<(), EcsError>(EcsError::UnregisteredComponent(key)) && *final(self)
                == *old(self),
            entity_index < old(self).n_entities() && old(self).registered(key) ==> result
                == Ok::<(), EcsError>(()) && component_removed(
                *old(self),
                *final(self),
                entity_index,
                key,
            ),
    {
        if entity_index >= self.entities.len() as u64 {
            return Err(EcsError::UnknownEntity(entity_index));
        }
        let bit: u64 = match self.component_bits.get(&key) {
            Some(bit) => *bit,
            None => { return Err(EcsError::UnregisteredComponent(key)); },
        };
        let ghost old_mask = self.entities@[entity_index as int]@;
        let entity = &mut self.entities[entity_index as usize];
        entity.remove_component(1u64 << bit);
        let storage = &mut self.components[bit as usize];
        storage.remove_entity(entity_index);
        proof {
            assert forall|j: u64| j < 64 implies ((old_mask & !(1u64 << bit)) & (1u64 << j)) == (
            if j == bit {
                0u64
            } else {
                old_mask & (1u64 << j)
            }) by {
                Self::lemma_clear_bit(old_mask, bit, j);
            }
            assert forall|b: u64| b < 64 implies (1u64 << b) != 0 by {
                Self::lemma_bit_nonzero(b);
            }
        }
        Ok(())
    }

    /// The component mask currently carried by the entity at `index`.
    ///
    /// Fails with `UnknownEntity` exactly when the entity was never created;
    /// an entity that exists but carries no components has mask 0.
    pub fn get_entity_mask(&self, index: EntityIndex) -> (result: Result<ComponentMask, EcsError>)
        ensures
            index < self.n_entities() ==> result == Ok::<ComponentMask, EcsError>(
                self.entity_mask(index),
            ),
            index >= self.n_entities() ==> result == Err::<ComponentMask, EcsError>(
                EcsError::UnknownEntity(index),
            ),
    {
        if index >= self.entities.len() as u64 {
            return Err(EcsError::UnknownEntity(index));
        }
        Ok(self.entities[index as usize].components_mask())
    }

    /// Shared access to the storage registered for `key`.
    ///
    /// Fails with `UnregisteredComponent` exactly when `key` was never
    /// registered.
    pub fn get_component(&self, key: ComponentKey) -> (result: Result<&Storage<C>, EcsError>)
        requires
            self.wf(),
        ensures
            match result {
                Ok(storage) => self.registered(key) && storage@ == self.storage(key),
                Err(err) => !self.registered(key) && err == EcsError::UnregisteredComponent(key),
            },
    {
        match self.component_bits.get(&key) {
            Some(bit) => Ok(&self.components[*bit as usize]),
            None => Err(EcsError::UnregisteredComponent(key)),
        }
    }

    /// Exclusive access to the storage registered for `key`, for a caller
    /// that knows `key` is registered.
    ///
    /// The caller that writes through the returned storage is charged with
    /// keeping it consistent with the entity masks; inserting or removing
    /// entities directly in the storage, rather than through
    /// `add_entity_component` and `remove_entity_component`, desynchronizes
    /// the two sides of the bookkeeping.
    pub fn get_component_mut(&mut self, key: ComponentKey) -> (storage: &mut Storage<C>)
        requires
            old(self).wf(),
            old(self).registered(key),
        ensures
            (*storage)@ == old(self).storage(key),
            final(self).storage(key) == (*final(storage))@,
            same_entities(*old(self), *final(self)),
            final(self).n_components() == old(self).n_components(),
            forall|k2: ComponentKey| (#[trigger] final(self).registered(k2) <==> old(
                self,
            ).registered(k2)),
            forall|k2: ComponentKey| #[trigger]
                old(self).registered(k2) ==> final(self).mask_of(k2) == old(self).mask_of(k2),
            forall|k2: ComponentKey|
                k2 != key && #[trigger] old(self).registered(k2) ==> final(self).storage(k2) == old(
                    self,
                ).storage(k2),
    {
        let bit: u64 = match self.component_bits.get(&key) {
            Some(bit) => *bit,
            None => vstd::pervasive::unreached(),
        };
        &mut self.components[bit as usize]
    }

    /// The component of `key` currently attached to the entity at
    /// `entity_index`.
    ///
    /// Fails with `UnregisteredComponent` when `key` was never registered,
    /// with `UnknownEntity` when the entity was never created, and with
    /// `MissingComponent` when the entity does not carry the component; it
    /// succeeds on every other input.
    pub fn component(&self, key: ComponentKey, entity_index: EntityIndex) -> (result: Result<&C, EcsError>)
        requires
            self.wf(),
        ensures
            result is Ok <==> (self.registered(key) && entity_index < self.n_entities()
                && self.storage(key).contains_key(entity_index)),
            match result {
                Ok(component) => *component == self.storage(key)[entity_index],
                Err(err) => err == (if !self.registered(key) {
                    EcsError::UnregisteredComponent(key)
                } else if entity_index >= self.n_entities() {
                    EcsError::UnknownEntity(entity_index)
                } else {
                    EcsError::MissingComponent(key, entity_index)
                }),
            },
    {
        let bit: u64 = match self.component_bits.get(&key) {
            Some(bit) => *bit,
            None => { return Err(EcsError::UnregisteredComponent(key)); },
        };
        if entity_index >= self.entities.len() as u64 {
            return Err(EcsError::UnknownEntity(entity_index));
        }
        let storage = &self.components[bit as usize];
        if !storage.contains(entity_index) {
            return Err(EcsError::MissingComponent(key, entity_index));
        }
        Ok(storage.get(entity_index))
    }

    /// The indices of exactly those entities whose mask is a superset of
    /// `mask`, in increasing order.
    ///
    /// An entity matches when it carries at least every component type whose
    /// bit is set in `mask`; it may carry more.
    pub fn entities_matching(&self, mask: ComponentMask) -> (matching: Vec<EntityIndex>)
        ensures
            forall|e: EntityIndex| #[trigger]
                matching@.contains(e) <==> (e < self.n_entities() && self.entity_mask(e) & mask
                == mask),
            forall|i: int, j: int| 0 <= i < j < matching@.len() ==> matching@[i] < matching@[j],
    {
        let mut matching: Vec<EntityIndex> = Vec::new();
        let n = self.entities.len();
        let mut index: usize = 0;
        while index < n
            invariant
                index <= n,
                n == self.entities@.len(),
                forall|e: EntityIndex| #[trigger]
                    matching@.contains(e) <==> (e < index && self.entities@[e as int]@ & mask
                    == mask),
                forall|i: int, j: int| 0 <= i < j < matching@.len() ==> matching@[i] < matching@[j],
                forall|i: int| 0 <= i < matching@.len() ==> matching@[i] < index,
            decreases n - index,
        {
            let m = self.entities[index].components_mask();
            if m & mask == mask {
                matching.push(index as u64);
            }
            index += 1;
        }
        matching
    }

    /// Check the mask/storage agreement at run time: for every storage and
    /// every existing entity, the storage holds a value for the entity
    /// exactly when the entity's mask has the storage's bit set.
    ///
    /// A well-formed world always passes; the check is for tests, to catch a
    /// desynchronization after storages have been edited directly through
    /// `get_component_mut`.
    pub fn check_consistency(&self) -> (consistent: bool)
        ensures
            self.wf() ==> consistent,
            consistent ==> forall|key: ComponentKey, e: EntityIndex|
                #![trigger self.storage(key).contains_key(e)]
                self.registered(key) && self.bit_of(key) < self.n_components() && e
                    < self.n_entities() ==> (self.storage(key).contains_key(e)
                    <==> self.entity_mask(e) & self.mask_of(key) == self.mask_of(key)),
    {
        if self.components.len() as u64 > MASK_BITS {
            return false;
        }
        let mut bit: usize = 0;
        while bit < self.components.len()
            invariant
                self.components@.len() <= MASK_BITS,
                bit <= self.components@.len(),
                forall|i: int, e: EntityIndex|
                    0 <= i < bit && e < self.entities@.len() ==> (
                    #[trigger] self.components@[i]@.contains_key(e) <==> self.entities@[
                        e as int
                    ]@ & (1u64 << (i as u64)) == (1u64 << (i as u64))),
            decreases self.components@.len() - bit,
        {
            let mut index: usize = 0;
            while index < self.entities.len()
                invariant
                    self.components@.len() <= MASK_BITS,
                    bit < self.components@.len(),
                    index <= self.entities@.len(),
                    forall|i: int, e: EntityIndex|
                        0 <= i < bit && e < self.entities@.len() ==> (
                        #[trigger] self.components@[i]@.contains_key(e) <==> self.entities@[
                            e as int
                        ]@ & (1u64 << (i as u64)) == (1u64 << (i as u64))),
                    forall|e: EntityIndex|
                        e < index ==> (#[trigger] self.components@[
                            bit as int
                        ]@.contains_key(e) <==> self.entities@[e as int]@ & (1u64 << (bit as u64))
                            == (1u64 << (bit as u64))),
                decreases self.entities@.len() - index,
            {
                let mask = self.entities[index].components_mask();
                let stored = self.components[bit].contains(index as u64);
                if stored != (mask & (1u64 << (bit as u64)) == (1u64 << (bit as u64))) {
                    return false;
                }
                index += 1;
            }
            bit += 1;
        }
        true
    }
}

/// A new entity at `index` was created between the states `pre` and `post`,
/// and nothing else changed: the index is the next free one, the new
/// entity's mask is empty, and every other entity, key and storage is as it
/// was.
pub open spec fn entity_created<C: Component>(pre: World<C>, post: World<C>, index: EntityIndex) -> bool {
    &&& index == pre.n_entities()
    &&& post.n_entities() == pre.n_entities() + 1
    &&& post.entity_mask(index) == 0u64
    &&& forall|e: EntityIndex|
        e < pre.n_entities() ==> #[trigger] post.entity_mask(e) == pre.entity_mask(e)
    &&& same_components(pre, post)
}

/// The key `key` was registered as a new component type between the states
/// `pre` and `post`, and nothing else changed: the key was free and now
/// holds the next mask bit and an empty storage, and every entity and every
/// other key is as it was.
pub open spec fn component_registered<C: Component>(
    pre: World<C>,
    post: World<C>,
    key: ComponentKey,
) -> bool {
    &&& !pre.registered(key)
    &&& pre.n_components() < MASK_BITS
    &&& post.registered(key)
    &&& post.mask_of(key) == 1u64 << (pre.n_components() as u64)
    &&& post.storage(key) == Map::<EntityIndex, C>::empty()
    &&& post.n_components() == pre.n_components() + 1
    &&& forall|k2: ComponentKey|
        k2 != key ==> (#[trigger] post.registered(k2) <==> pre.registered(k2))
    &&& forall|k2: ComponentKey|
        k2 != key && #[trigger] pre.registered(k2) ==> post.mask_of(k2) == pre.mask_of(k2)
            && post.storage(k2) == pre.storage(k2)
    &&& same_entities(pre, post)
}

/// The entity at `index` gained the component `component` of the registered
/// key `key` between the states `pre` and `post`, and nothing else changed:
/// the bit of `key` is now set in the entity's mask, the storage of `key`
/// now maps the entity to `component`, and every other entity, key and
/// storage is as it was.
pub open spec fn component_added<C: Component>(
    pre: World<C>,
    post: World<C>,
    index: EntityIndex,
    key: ComponentKey,
    component: C,
) -> bool {
    &&& pre.registered(key)
    &&& index < pre.n_entities()
    &&& post.entity_mask(index) == pre.entity_mask(index) | pre.mask_of(key)
    &&& post.entity_mask(index) & post.mask_of(key) == post.mask_of(key)
    &&& post.storage(key) == pre.storage(key).insert(index, component)
    &&& post.n_entities() == pre.n_entities()
    &&& forall|e2: EntityIndex|
        e2 < pre.n_entities() && e2 != index ==> #[trigger] post.entity_mask(e2)
            == pre.entity_mask(e2)
    &&& post.n_components() == pre.n_components()
    &&& forall|k2: ComponentKey| (#[trigger] post.registered(k2) <==> pre.registered(k2))
    &&& post.mask_of(key) == pre.mask_of(key)
    &&& forall|k2: ComponentKey|
        k2 != key && #[trigger] pre.registered(k2) ==> post.mask_of(k2) == pre.mask_of(k2)
            && post.storage(k2) == pre.storage(k2)
}

/// The entity at `index` lost the component of the registered key `key`
/// between the states `pre` and `post`, and nothing else changed: the bit of
/// `key` is now clear in the entity's mask, the storage of `key` no longer
/// holds a value for the entity, and every other entity, key and storage is
/// as it was.
pub open spec fn component_removed<C: Component>(
    pre: World<C>,
    post: World<C>,
    index: EntityIndex,
    key: ComponentKey,
) -> bool {
    &&& pre.registered(key)
    &&& index < pre.n_entities()
    &&& post.entity_mask(index) == pre.entity_mask(index) & !pre.mask_of(key)
    &&& post.entity_mask(index) & post.mask_of(key) == 0
    &&& post.storage(key) == pre.storage(key).remove(index)
    &&& !post.storage(key).contains_key(index)
    &&& post.n_entities() == pre.n_entities()
    &&& forall|e2: EntityIndex|
        e2 < pre.n_entities() && e2 != index ==> #[trigger] post.entity_mask(e2)
            == pre.entity_mask(e2)
    &&& post.n_components() == pre.n_components()
    &&& forall|k2: ComponentKey| (#[trigger] post.registered(k2) <==> pre.registered(k2))
    &&& post.mask_of(key) == pre.mask_of(key)
    &&& forall|k2: ComponentKey|
        k2 != key && #[trigger] pre.registered(k2) ==> post.mask_of(k2) == pre.mask_of(k2)
            && post.storage(k2) == pre.storage(k2)
}

/// Law: the masks of registered component types are nonzero single bits.
///
/// Together with the `ensures` of `register_component` — which pins the
/// returned mask to `1 << n` for the `n`-th registration — this says that
/// every sequence of registrations of distinct keys assigns pairwise
/// distinct single-bit masks, in call order starting at bit 0.
pub proof fn lemma_registered_mask_single_bit<C: Component>(world: World<C>, key: ComponentKey)
    requires
        world.wf(),
        world.registered(key),
    ensures
        world.mask_of(key) != 0,
        exists|b: u64| b < world.n_components() && world.mask_of(key) == 1u64 << b,
        world.n_components() <= MASK_BITS,
{
    World::<C>::lemma_bit_nonzero(world.bit_of(key));
    assert(world.bit_of(key) < MASK_BITS && world.mask_of(key) == 1u64 << world.bit_of(key));
}

/// Law: distinct registered component types hold distinct, disjoint masks:
/// no two keys share a bit, so setting or clearing one type's bit never
/// touches another type's bit.
pub proof fn lemma_registered_masks_distinct<C: Component>(
    world: World<C>,
    k1: ComponentKey,
    k2: ComponentKey,
)
    requires
        world.wf(),
        world.registered(k1),
        world.registered(k2),
        k1 != k2,
    ensures
        world.mask_of(k1) != world.mask_of(k2),
        world.mask_of(k1) & world.mask_of(k2) == 0,
{
    World::<C>::lemma_distinct_bits(world.bit_of(k1), world.bit_of(k2));
}

/// Law: in a well-formed world, the two sides of the bookkeeping agree for
/// every entity and every registered component type: the storage of a key
/// holds a value for an entity exactly when the entity exists and its mask
/// has the key's bit set.
pub proof fn lemma_mask_storage_agreement<C: Component>(
    world: World<C>,
    key: ComponentKey,
    index: EntityIndex,
)
    requires
        world.wf(),
        world.registered(key),
    ensures
        world.storage(key).contains_key(index) <==> (index < world.n_entities()
            && world.entity_mask(index) & world.mask_of(key) == world.mask_of(key)),
{
}

/// Law: detaching a component twice in a row leaves the world exactly as
/// detaching it once does.
pub proof fn lemma_remove_entity_component_idempotent<C: Component>(
    w0: World<C>,
    w1: World<C>,
    w2: World<C>,
    index: EntityIndex,
    key: ComponentKey,
)
    requires
        component_removed(w0, w1, index, key),
        component_removed(w1, w2, index, key),
    ensures
        same_entities(w1, w2),
        same_components(w1, w2),
{
    let x = w0.entity_mask(index);
    let m = w0.mask_of(key);
    assert((x & !m) & !m == x & !m) by (bit_vector);
    assert(w1.storage(key).remove(index) =~= w1.storage(key));
}

/// The component type registry and storages of `a` and `b` agree: the same
/// keys are registered, with the same masks and the same stored contents.
pub open spec fn same_components<C: Component>(a: World<C>, b: World<C>) -> bool {
    &&& b.n_components() == a.n_components()
    &&& forall|k: ComponentKey| #[trigger] b.registered(k) <==> a.registered(k)
    &&& forall|k: ComponentKey| #[trigger]
        a.registered(k) ==> b.mask_of(k) == a.mask_of(k) && b.storage(k) == a.storage(k)
}

/// The entity tables of `a` and `b` agree: the same entities exist and carry
/// the same masks.
pub open spec fn same_entities<C: Component>(a: World<C>, b: World<C>) -> bool {
    &&& b.n_entities() == a.n_entities()
    &&& forall|e: EntityIndex|
        e < a.n_entities() ==> #[trigger] b.entity_mask(e) == a.entity_mask(e)
}

} // verus!

//! The store itself.

use crate::any_entity::entity_type_of;
use crate::any_entity::AnyEntity;
use crate::any_entity::TypeKey;
use crate::entity_id::EntityId;
use crate::error::EntityError;
use crate::handle::Handle;
use crate::handle::Lease;
use crate::handle::Slot;
use crate::handle::WeakHandle;
use crate::model::EntityMapView;
use crate::tables::count_entries;
use crate::tables::entity_entries;
use crate::tables::CountTable;
use crate::tables::EntityTable;
use crate::tables::MAX_SLOTS;
use std::any::TypeId;
use vstd::prelude::*;

verus! {

/// The store: a reference count for every live slot, the entity of every
/// filled slot, and the entities that wait to be disposed of.
pub struct EntityMap {
    ref_counts: CountTable,
    entities: EntityTable,
    dropped_entities: Vec<(EntityId, AnyEntity)>,
}

impl View for EntityMap {
    type V = EntityMapView;

    closed spec fn view(&self) -> EntityMapView {
        EntityMapView {
            counts: Map::new(
                |id: EntityId| count_entries(self.ref_counts).contains_key(id),
                |id: EntityId| count_entries(self.ref_counts)[id] as nat,
            ),
            entities: entity_entries(self.entities),
            dropped: self.dropped_entities@,
        }
    }
}

impl EntityMap {
    /// What every store keeps to: only live slots hold an entity, every live
    /// slot has a count of one or more, and the live identifiers are keys of
    /// which no two share a slot.
    #[verifier::type_invariant]
    closed spec fn wf(&self) -> bool {
        &&& count_entries(self.ref_counts).dom().finite()
        &&& entity_entries(self.entities).dom().subset_of(count_entries(self.ref_counts).dom())
        &&& forall|id: EntityId| #[trigger]
            count_entries(self.ref_counts).contains_key(id) ==> id.is_key() && count_entries(
                self.ref_counts,
            )[id] >= 1
        &&& forall|a: EntityId, b: EntityId|
            #![trigger count_entries(self.ref_counts).contains_key(a), count_entries(self.ref_counts).contains_key(b)]
            count_entries(self.ref_counts).contains_key(a) && count_entries(
                self.ref_counts,
            ).contains_key(b) && a.slot_index() == b.slot_index() ==> a == b
    }

    proof fn wf_inv(&self)
        requires
            self.wf(),
        ensures
            self@.inv(),
            self@.counts.dom() == count_entries(self.ref_counts).dom(),
    {
    }

    /// Does nothing, and tells that the store satisfies
    /// [`EntityMapView::inv`], as every store does at all times.
    pub fn inv_holds(&self)
        ensures
            self@.inv(),
    {
        proof {
            use_type_invariant(self);
            self.wf_inv();
        }
    }

    /// A store without slots.
    pub fn new() -> (entity_map: Self)
        ensures
            entity_map@ == EntityMapView::empty(),
    {
        EntityMap {
            ref_counts: CountTable::new(),
            entities: EntityTable::new(),
            dropped_entities: Vec::new(),
        }
    }

    /// The number of live slots.
    pub fn len(&self) -> (len: usize)
        ensures
            len == self@.counts.len(),
    {
        proof {
            use_type_invariant(self);
            self.wf_inv();
        }
        self.ref_counts.len()
    }

    /// The reference count of slot `id`, if the slot is live.
    pub fn ref_count(&self, id: EntityId) -> (count: Option<usize>)
        ensures
            count matches Some(n) ==> self@.is_live(id) && n == self@.counts[id],
            count is None ==> !self@.is_live(id),
    {
        proof {
            use_type_invariant(&id);
        }
        self.ref_counts.get(id)
    }

    /// Whether slot `id` holds its entity: it is filled and not on lease.
    pub fn contains_entity(&self, id: EntityId) -> (present: bool)
        ensures
            present == self@.is_present(id),
    {
        proof {
            use_type_invariant(&id);
        }
        self.entities.get(id).is_some()
    }

    /// The identity of the concrete type of the entity in slot `id`, if the
    /// slot holds its entity. The entity itself is not touched.
    pub fn entity_type(&self, id: EntityId) -> (entity_type: Option<TypeId>)
        ensures
            entity_type == (if self@.is_present(id) {
                Some(entity_type_of(self@.entities[id]))
            } else {
                None::<TypeId>
            }),
    {
        proof {
            use_type_invariant(&id);
        }
        match self.entities.get(id) {
            Some(entity) => Some(entity.entity_type()),
            None => None,
        }
    }

    /// Makes a new slot with a count of one and no entity, and returns its
    /// identifier.
    pub(crate) fn reserve_id(&mut self) -> (id: EntityId)
        requires
            old(self)@.counts.len() < MAX_SLOTS,
        ensures
            !old(self)@.is_live(id),
            final(self)@ == old(self)@.reserve(id),
    {
        proof {
            use_type_invariant(&*self);
            self.wf_inv();
        }
        self.ref_counts.insert(1)
    }

    /// Puts `entity` into the live slot `id`.
    pub(crate) fn put(&mut self, id: EntityId, entity: AnyEntity)
        requires
            old(self)@.is_live(id),
        ensures
            final(self)@ == old(self)@.put(id, entity),
    {
        proof {
            use_type_invariant(&*self);
            use_type_invariant(&id);
        }
        let _ = self.entities.insert(id, entity);
    }

    /// Takes the entity out of slot `id`, if the slot holds one.
    pub(crate) fn take(&mut self, id: EntityId) -> (entity: Option<AnyEntity>)
        ensures
            final(self)@ == old(self)@.take(id),
            entity == (if old(self)@.is_present(id) {
                Some(old(self)@.entities[id])
            } else {
                None::<AnyEntity>
            }),
    {
        proof {
            use_type_invariant(&*self);
            use_type_invariant(&id);
        }
        let entity = self.entities.remove(id);
        entity
    }

    /// Adds one unit to the count of slot `id`, if the slot is live, and says
    /// whether it was.
    pub(crate) fn acquire(&mut self, id: EntityId) -> (live: bool)
        requires
            old(self)@.is_live(id) ==> old(self)@.counts[id] < usize::MAX,
        ensures
            live == old(self)@.is_live(id),
            live ==> final(self)@ == old(self)@.acquire(id),
            !live ==> final(self)@ == old(self)@,
    {
        proof {
            use_type_invariant(&*self);
            use_type_invariant(&id);
        }
        match self.ref_counts.get(id) {
            Some(count) => {
                self.ref_counts.set(id, count + 1);
                true
            },
            None => false,
        }
    }

    /// Takes one unit off the count of the live slot `id` and says whether it
    /// was the last. With the last unit the slot goes, and its entity joins
    /// the queue of dropped entities.
    pub(crate) fn release_one(&mut self, id: EntityId) -> (last: bool)
        requires
            old(self)@.is_live(id),
            old(self)@.counts[id] == 1 ==> old(self)@.is_present(id),
        ensures
            last == (old(self)@.counts[id] == 1),
            final(self)@ == old(self)@.release(id),
    {
        proof {
            use_type_invariant(&*self);
            use_type_invariant(&id);
        }
        match self.ref_counts.get(id) {
            Some(count) => {
                if count == 1 {
                    match self.entities.remove(id) {
                        Some(entity) => {
                            let _ = self.ref_counts.remove(id);
                            let mut dropped: Vec<(EntityId, AnyEntity)> = Vec::new();
                            std::mem::swap(&mut self.dropped_entities, &mut dropped);
                            dropped.push((id, entity));
                            std::mem::swap(&mut self.dropped_entities, &mut dropped);
                        },
                        None => {},
                    }
                    true
                } else {
                    self.ref_counts.set(id, count - 1);
                    false
                }
            },
            None => false,
        }
    }

    /// Reserves a slot for an entity of the type with identity `entity_type`.
    /// The slot has a count of one, held by the handle returned, and no
    /// entity yet.
    pub fn reserve_as<T>(&mut self, entity_type: TypeId) -> (slot: Slot<T>)
        requires
            old(self)@.counts.len() < MAX_SLOTS,
        ensures
            !old(self)@.is_live(slot.id()),
            slot.entity_type() == entity_type,
            final(self)@ == old(self)@.reserve(slot.id()),
    {
        let id = self.reserve_id();
        Slot::new(Handle::new(id, entity_type))
    }

    /// Reserves a slot for an entity of type `T`, to be filled with
    /// [`EntityMap::insert`]: [`EntityMap::reserve_as`] with the identity of
    /// `T`.
    pub fn reserve<T: 'static + Send + Sync>(&mut self) -> (slot: Slot<T>)
        requires
            old(self)@.counts.len() < MAX_SLOTS,
        ensures
            !old(self)@.is_live(slot.id()),
            final(self)@ == old(self)@.reserve(slot.id()),
    {
        self.reserve_as::<T>(TypeKey::<T>::of().id())
    }

    /// Fills a reserved slot with an entity that is erased already, and
    /// returns the slot as a handle.
    pub fn insert_entity<T>(&mut self, slot: Slot<T>, entity: AnyEntity) -> (handle: Handle<T>)
        requires
            old(self)@.is_live(slot.id()),
        ensures
            handle == slot.handle(),
            final(self)@ == old(self)@.put(slot.id(), entity),
    {
        let handle = slot.into_handle();
        self.put(handle.id(), entity);
        handle
    }

    /// Fills a reserved slot with `entity` and returns the slot as a handle:
    /// [`EntityMap::insert_entity`] with the entity erased.
    pub fn insert<T: 'static + Send + Sync>(&mut self, slot: Slot<T>, entity: T) -> (handle:
        Handle<T>)
        requires
            old(self)@.is_live(slot.id()),
        ensures
            handle == slot.handle(),
            final(self)@.is_present(slot.id()),
            final(self)@ == old(self)@.put(slot.id(), final(self)@.entities[slot.id()]),
    {
        self.insert_entity(slot, AnyEntity::new(entity))
    }

    /// Takes the entity of a slot out of the store for exclusive access, if
    /// the slot holds it, and reports [`EntityError::CircularLease`] if it
    /// does not: the entity is on lease already.
    pub fn try_lease<T: 'static>(&mut self, handle: &Handle<T>) -> (lease: Result<
        Lease<T>,
        EntityError,
    >)
        ensures
            lease is Ok <==> old(self)@.is_present(handle.id()),
            lease matches Ok(lease) ==> {
                &&& lease.id() == handle.id()
                &&& lease@ == old(self)@.entities[handle.id()]
                &&& final(self)@ == old(self)@.take(handle.id())
            },
            lease matches Err(error) ==> {
                &&& error == EntityError::CircularLease
                &&& final(self)@ == old(self)@
            },
    {
        match self.take(handle.id()) {
            Some(entity) => Ok(Lease::new(handle.id(), entity, TypeKey::<T>::of())),
            None => Err(EntityError::CircularLease),
        }
    }

    /// Takes the entity of a slot out of the store for exclusive access.
    /// Until the lease is ended the slot is empty, so a second lease of it
    /// cannot be taken.
    pub fn lease<T: 'static>(&mut self, handle: &Handle<T>) -> (lease: Lease<T>)
        requires
            old(self)@.is_present(handle.id()),
        ensures
            lease.id() == handle.id(),
            lease@ == old(self)@.entities[handle.id()],
            final(self)@ == old(self)@.take(handle.id()),
    {
        let entity = self.take(handle.id()).unwrap();
        Lease::new(handle.id(), entity, TypeKey::<T>::of())
    }

    /// Ends a lease: the entity, as it is now, goes back into its slot.
    pub fn end_lease<T>(&mut self, lease: Lease<T>)
        requires
            old(self)@.is_live(lease.id()),
        ensures
            final(self)@ == old(self)@.put(lease.id(), lease@),
    {
        let id = lease.id();
        self.put(id, lease.into_entity());
    }

    /// A weak handle to slot `id` for an entity of the type with identity
    /// `entity_type`.
    pub fn weak_handle_as<T>(&self, id: EntityId, entity_type: TypeId) -> (weak: WeakHandle<T>)
        ensures
            weak.id() == id,
            weak.entity_type() == entity_type,
    {
        WeakHandle::new(id, entity_type)
    }

    /// A weak handle to slot `id` for an entity of type `T`:
    /// [`EntityMap::weak_handle_as`] with the identity of `T`.
    pub fn weak_handle<T: 'static + Send + Sync>(&self, id: EntityId) -> (weak: WeakHandle<T>)
        ensures
            weak.id() == id,
    {
        self.weak_handle_as::<T>(id, TypeKey::<T>::of().id())
    }

    /// Hands over the entities whose count fell to zero since the last call,
    /// oldest first, and empties the queue.
    pub fn take_dropped(&mut self) -> (dropped: Vec<(EntityId, AnyEntity)>)
        ensures
            dropped@ == old(self)@.dropped,
            final(self)@ == old(self)@.drain(),
    {
        proof {
            use_type_invariant(&*self);
        }
        let mut dropped: Vec<(EntityId, AnyEntity)> = Vec::new();
        std::mem::swap(&mut self.dropped_entities, &mut dropped);
        dropped
    }
}

} // verus!

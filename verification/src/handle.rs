//! Handles: what a holder keeps of a slot.
//!
//! A strong handle stands for one unit of its slot's reference count. A
//! handle is a plain record and does not reach the store by itself: the unit
//! is taken by [`AnyHandle::acquire`] and given back by
//! [`AnyHandle::release`], each with the store in hand. A weak handle names a
//! slot without a unit and becomes strong only while the slot is live.

use crate::any_entity::entity_type_of;
use crate::any_entity::type_id_eq;
use crate::any_entity::TypeKey;
use crate::any_entity::AnyEntity;
use crate::entity_id::EntityId;
use crate::entity_map::EntityMap;
use crate::error::EntityError;
use std::any::TypeId;
use std::marker::PhantomData;
use vstd::prelude::*;

verus! {

/// A strong handle to an entity of a type not known statically.
pub struct AnyHandle {
    pub(crate) id: EntityId,
    entity_type: TypeId,
}

/// A strong handle to an entity of type `T`.
pub struct Handle<T> {
    any_handle: AnyHandle,
    entity_type: PhantomData<T>,
}

/// A weak handle to an entity of a type not known statically.
#[derive(Clone, Copy)]
pub struct AnyWeakHandle {
    pub(crate) id: EntityId,
    entity_type: TypeId,
}

/// A weak handle to an entity of type `T`.
pub struct WeakHandle<T> {
    any_handle: AnyWeakHandle,
    entity_type: PhantomData<T>,
}

/// A slot that was reserved and is still to be filled. It is the first strong
/// handle to the slot, so the entity to come can already name itself.
pub struct Slot<T>(Handle<T>);

impl AnyHandle {
    /// The slot that the handle names.
    pub closed spec fn spec_id(&self) -> EntityId {
        self.id
    }

    /// The type identity recorded for the slot.
    pub closed spec fn spec_entity_type(&self) -> TypeId {
        self.entity_type
    }

    /// The record of a unit of slot `id`, which the caller has taken.
    pub(crate) fn new(id: EntityId, entity_type: TypeId) -> (handle: Self)
        ensures
            handle.id() == id,
            handle.entity_type() == entity_type,
    {
        AnyHandle { id, entity_type }
    }

    /// The slot that the handle names.
    #[verifier::when_used_as_spec(spec_id)]
    pub fn id(&self) -> (id: EntityId)
        ensures
            id == self.id(),
    {
        self.id
    }

    /// The type identity recorded for the slot.
    #[verifier::when_used_as_spec(spec_entity_type)]
    pub fn entity_type(&self) -> (entity_type: TypeId)
        ensures
            entity_type == self.entity_type(),
    {
        self.entity_type
    }

    /// A weak handle to the same slot. The count is not touched.
    pub fn downgrade(&self) -> (weak: AnyWeakHandle)
        ensures
            weak.id() == self.id(),
            weak.entity_type() == self.entity_type(),
    {
        AnyWeakHandle { id: self.id, entity_type: self.entity_type }
    }

    /// Narrows the handle to a typed one if `requested` is the type recorded
    /// for the slot, and yields nothing for any other type. The typed handle
    /// stands for the same unit of the count, which is not changed.
    pub fn downcast_as<T>(&self, requested: TypeId) -> (typed: Option<Handle<T>>)
        ensures
            typed is Some <==> requested == self.entity_type(),
            typed matches Some(handle) ==> handle.any_handle() == *self,
    {
        if type_id_eq(&requested, &self.entity_type) {
            Some(
                Handle {
                    any_handle: AnyHandle { id: self.id, entity_type: self.entity_type },
                    entity_type: PhantomData,
                },
            )
        } else {
            None
        }
    }

    /// Narrows the handle to one of type `T` if `T` is the type recorded for
    /// the slot: [`AnyHandle::downcast_as`] with the identity of `T`.
    pub fn downcast<T: 'static + Send + Sync>(&self) -> (typed: Option<Handle<T>>)
        ensures
            typed matches Some(handle) ==> handle.any_handle() == *self,
    {
        self.downcast_as::<T>(TypeKey::<T>::of().id())
    }

    /// One more strong handle to the slot, as a clone of the handle is: the
    /// count of the slot goes up by one.
    pub fn acquire(&self, entity_map: &mut EntityMap) -> (handle: AnyHandle)
        requires
            old(entity_map)@.is_live(self.id()),
            old(entity_map)@.counts[self.id()] < usize::MAX,
        ensures
            final(entity_map)@ == old(entity_map)@.acquire(self.id()),
            handle == *self,
    {
        let _ = entity_map.acquire(self.id);
        AnyHandle { id: self.id, entity_type: self.entity_type }
    }

    /// Gives the handle up, as dropping it does: the count of the slot goes
    /// down by one. With the last handle the slot goes, and its entity is
    /// queued for disposal instead of being destroyed here.
    pub fn release(self, entity_map: &mut EntityMap)
        requires
            old(entity_map)@.is_live(self.id()),
            old(entity_map)@.counts[self.id()] == 1 ==> old(entity_map)@.is_present(self.id()),
        ensures
            final(entity_map)@ == old(entity_map)@.release(self.id()),
    {
        let _ = entity_map.release_one(self.id);
    }
}

impl<T> Handle<T> {
    /// The untyped handle inside.
    pub closed spec fn any_handle(&self) -> AnyHandle {
        self.any_handle
    }

    /// The slot that the handle names.
    pub open spec fn spec_id(&self) -> EntityId {
        self.any_handle().id()
    }

    /// The type identity recorded for the slot.
    pub open spec fn spec_entity_type(&self) -> TypeId {
        self.any_handle().entity_type()
    }

    /// The record of a unit of slot `id`, which the caller has taken.
    pub(crate) fn new(id: EntityId, entity_type: TypeId) -> (handle: Self)
        ensures
            handle.id() == id,
            handle.entity_type() == entity_type,
    {
        Handle { any_handle: AnyHandle::new(id, entity_type), entity_type: PhantomData }
    }

    /// The slot that the handle names.
    #[verifier::when_used_as_spec(spec_id)]
    pub fn id(&self) -> (id: EntityId)
        ensures
            id == self.id(),
    {
        self.any_handle.id
    }

    /// The type identity recorded for the slot.
    #[verifier::when_used_as_spec(spec_entity_type)]
    pub fn entity_type(&self) -> (entity_type: TypeId)
        ensures
            entity_type == self.entity_type(),
    {
        self.any_handle.entity_type
    }

    /// A weak handle to the same slot. The count is not touched.
    pub fn downgrade(&self) -> (weak: WeakHandle<T>)
        ensures
            weak.id() == self.id(),
            weak.entity_type() == self.entity_type(),
    {
        WeakHandle { any_handle: self.any_handle.downgrade(), entity_type: PhantomData }
    }

    /// One more strong handle to the slot, as a clone of the handle is: the
    /// count of the slot goes up by one.
    pub fn acquire(&self, entity_map: &mut EntityMap) -> (handle: Handle<T>)
        requires
            old(entity_map)@.is_live(self.id()),
            old(entity_map)@.counts[self.id()] < usize::MAX,
        ensures
            final(entity_map)@ == old(entity_map)@.acquire(self.id()),
            handle == *self,
    {
        Handle { any_handle: self.any_handle.acquire(entity_map), entity_type: PhantomData }
    }

    /// Gives the handle up, as dropping it does: the count of the slot goes
    /// down by one. With the last handle the slot goes, and its entity is
    /// queued for disposal.
    pub fn release(self, entity_map: &mut EntityMap)
        requires
            old(entity_map)@.is_live(self.id()),
            old(entity_map)@.counts[self.id()] == 1 ==> old(entity_map)@.is_present(self.id()),
        ensures
            final(entity_map)@ == old(entity_map)@.release(self.id()),
    {
        self.any_handle.release(entity_map)
    }

    /// Updates the entity of the slot with `update`, which takes the entity
    /// and hands back what it has become, with a result of its own.
    ///
    /// The entity is out of the store while `update` runs, so nothing else
    /// reaches it, and is back in its slot afterwards, where every handle to
    /// the slot finds it.
    pub fn update<R, F: FnOnce(AnyEntity) -> (AnyEntity, R)>(
        &self,
        entity_map: &mut EntityMap,
        update: F,
    ) -> (result: R)
        requires
            old(entity_map)@.is_present(self.id()),
            call_requires(update, (old(entity_map)@.entities[self.id()],)),
        ensures
            final(entity_map)@.is_present(self.id()),
            call_ensures(
                update,
                (old(entity_map)@.entities[self.id()],),
                (final(entity_map)@.entities[self.id()], result),
            ),
            final(entity_map)@ == old(entity_map)@.put(
                self.id(),
                final(entity_map)@.entities[self.id()],
            ),
    {
        entity_map.inv_holds();
        let taken = entity_map.take(self.any_handle.id).unwrap();
        let (entity, result) = update(taken);
        entity_map.put(self.any_handle.id, entity);
        result
    }
}

impl AnyWeakHandle {
    /// The slot that the handle names.
    pub closed spec fn spec_id(&self) -> EntityId {
        self.id
    }

    /// The type identity recorded for the slot.
    pub closed spec fn spec_entity_type(&self) -> TypeId {
        self.entity_type
    }

    /// A weak handle to slot `id`.
    pub(crate) fn new(id: EntityId, entity_type: TypeId) -> (weak: Self)
        ensures
            weak.id() == id,
            weak.entity_type() == entity_type,
    {
        AnyWeakHandle { id, entity_type }
    }

    /// The slot that the handle names.
    #[verifier::when_used_as_spec(spec_id)]
    pub fn id(&self) -> (id: EntityId)
        ensures
            id == self.id(),
    {
        self.id
    }

    /// The type identity recorded for the slot.
    #[verifier::when_used_as_spec(spec_entity_type)]
    pub fn entity_type(&self) -> (entity_type: TypeId)
        ensures
            entity_type == self.entity_type(),
    {
        self.entity_type
    }

    /// A strong handle to the slot, if the slot is still live; nothing once
    /// its last strong handle was released. The check and the new unit of the
    /// count are one step on the store.
    pub fn upgrade(&self, entity_map: &mut EntityMap) -> (strong: Option<AnyHandle>)
        requires
            old(entity_map)@.is_live(self.id()) ==> old(entity_map)@.counts[self.id()]
                < usize::MAX,
        ensures
            strong is Some <==> old(entity_map)@.is_live(self.id()),
            strong matches Some(handle) ==> {
                &&& handle.id() == self.id()
                &&& handle.entity_type() == self.entity_type()
                &&& final(entity_map)@ == old(entity_map)@.acquire(self.id())
            },
            strong is None ==> final(entity_map)@ == old(entity_map)@,
    {
        if entity_map.acquire(self.id) {
            Some(AnyHandle::new(self.id, self.entity_type))
        } else {
            None
        }
    }
}

impl<T> WeakHandle<T> {
    /// The untyped handle inside.
    pub closed spec fn any_handle(&self) -> AnyWeakHandle {
        self.any_handle
    }

    /// The slot that the handle names.
    pub open spec fn spec_id(&self) -> EntityId {
        self.any_handle().id()
    }

    /// The type identity recorded for the slot.
    pub open spec fn spec_entity_type(&self) -> TypeId {
        self.any_handle().entity_type()
    }

    /// A weak handle to slot `id`.
    pub(crate) fn new(id: EntityId, entity_type: TypeId) -> (weak: Self)
        ensures
            weak.id() == id,
            weak.entity_type() == entity_type,
    {
        WeakHandle { any_handle: AnyWeakHandle::new(id, entity_type), entity_type: PhantomData }
    }

    /// The slot that the handle names.
    #[verifier::when_used_as_spec(spec_id)]
    pub fn id(&self) -> (id: EntityId)
        ensures
            id == self.id(),
    {
        self.any_handle.id
    }

    /// The type identity recorded for the slot.
    #[verifier::when_used_as_spec(spec_entity_type)]
    pub fn entity_type(&self) -> (entity_type: TypeId)
        ensures
            entity_type == self.entity_type(),
    {
        self.any_handle.entity_type
    }

    /// A strong handle to the slot, if the slot is still live; nothing once
    /// its last strong handle was released.
    pub fn upgrade(&self, entity_map: &mut EntityMap) -> (strong: Option<Handle<T>>)
        requires
            old(entity_map)@.is_live(self.id()) ==> old(entity_map)@.counts[self.id()]
                < usize::MAX,
        ensures
            strong is Some <==> old(entity_map)@.is_live(self.id()),
            strong matches Some(handle) ==> {
                &&& handle.id() == self.id()
                &&& handle.entity_type() == self.entity_type()
                &&& final(entity_map)@ == old(entity_map)@.acquire(self.id())
            },
            strong is None ==> final(entity_map)@ == old(entity_map)@,
    {
        match self.any_handle.upgrade(entity_map) {
            Some(any_handle) => Some(Handle { any_handle, entity_type: PhantomData }),
            None => None,
        }
    }

    /// Updates the entity of the slot with `update` if the slot is still
    /// live, as [`Handle::update`] does, and reports
    /// [`EntityError::Released`] if it is not. The count of the slot is the
    /// same afterwards: the strong handle taken for the update is released
    /// again.
    pub fn update<R, F: FnOnce(AnyEntity) -> (AnyEntity, R)>(
        &self,
        entity_map: &mut EntityMap,
        update: F,
    ) -> (result: Result<R, EntityError>)
        requires
            old(entity_map)@.is_live(self.id()) ==> {
                &&& old(entity_map)@.counts[self.id()] < usize::MAX
                &&& old(entity_map)@.is_present(self.id())
                &&& call_requires(update, (old(entity_map)@.entities[self.id()],))
            },
        ensures
            result is Ok <==> old(entity_map)@.is_live(self.id()),
            result matches Ok(value) ==> {
                &&& final(entity_map)@.is_present(self.id())
                &&& call_ensures(
                    update,
                    (old(entity_map)@.entities[self.id()],),
                    (final(entity_map)@.entities[self.id()], value),
                )
                &&& final(entity_map)@ == old(entity_map)@.put(
                    self.id(),
                    final(entity_map)@.entities[self.id()],
                )
            },
            result matches Err(error) ==> {
                &&& error == EntityError::Released
                &&& final(entity_map)@ == old(entity_map)@
            },
    {
        entity_map.inv_holds();
        match self.upgrade(entity_map) {
            Some(this) => {
                let value = this.update(entity_map, update);
                this.release(entity_map);
                Ok(value)
            },
            None => Err(EntityError::Released),
        }
    }
}

impl<T> Slot<T> {
    /// The strong handle that the slot is.
    pub closed spec fn handle(&self) -> Handle<T> {
        self.0
    }

    /// The slot that `handle` has just reserved.
    pub(crate) fn new(handle: Handle<T>) -> (slot: Self)
        ensures
            slot.handle() == handle,
    {
        Slot(handle)
    }

    /// The slot as the handle that it is, once it is filled.
    pub(crate) fn into_handle(self) -> (handle: Handle<T>)
        ensures
            handle == self.handle(),
    {
        self.0
    }

    /// The slot that was reserved.
    pub open spec fn spec_id(&self) -> EntityId {
        self.handle().id()
    }

    /// The type identity recorded for the slot.
    pub open spec fn spec_entity_type(&self) -> TypeId {
        self.handle().entity_type()
    }

    /// The slot that was reserved.
    #[verifier::when_used_as_spec(spec_id)]
    pub fn id(&self) -> (id: EntityId)
        ensures
            id == self.id(),
    {
        self.0.any_handle.id
    }

    /// The type identity recorded for the slot.
    #[verifier::when_used_as_spec(spec_entity_type)]
    pub fn entity_type(&self) -> (entity_type: TypeId)
        ensures
            entity_type == self.entity_type(),
    {
        self.0.any_handle.entity_type
    }
}

impl<T> std::ops::Deref for Handle<T> {
    type Target = AnyHandle;

    fn deref(&self) -> (any_handle: &AnyHandle)
        ensures
            *any_handle == self.any_handle(),
    {
        &self.any_handle
    }
}

impl<T> std::ops::Deref for WeakHandle<T> {
    type Target = AnyWeakHandle;

    fn deref(&self) -> (any_handle: &AnyWeakHandle)
        ensures
            *any_handle == self.any_handle(),
    {
        &self.any_handle
    }
}

impl<T> std::ops::Deref for Slot<T> {
    type Target = Handle<T>;

    fn deref(&self) -> (handle: &Handle<T>)
        ensures
            *handle == self.handle(),
    {
        &self.0
    }
}

impl<T> Clone for WeakHandle<T> {
    fn clone(&self) -> (weak: Self)
        ensures
            weak == *self,
    {
        WeakHandle { any_handle: self.any_handle, entity_type: PhantomData }
    }
}

impl<T> From<Handle<T>> for AnyHandle {
    fn from(handle: Handle<T>) -> (any_handle: AnyHandle)
    {
        handle.any_handle
    }
}

impl<T> vstd::std_specs::convert::FromSpecImpl<Handle<T>> for AnyHandle {
    open spec fn obeys_from_spec() -> bool {
        true
    }

    open spec fn from_spec(handle: Handle<T>) -> AnyHandle {
        handle.any_handle()
    }
}

impl<T> From<WeakHandle<T>> for AnyWeakHandle {
    fn from(handle: WeakHandle<T>) -> (any_handle: AnyWeakHandle)
    {
        handle.any_handle
    }
}

impl<T> vstd::std_specs::convert::FromSpecImpl<WeakHandle<T>> for AnyWeakHandle {
    open spec fn obeys_from_spec() -> bool {
        true
    }

    open spec fn from_spec(handle: WeakHandle<T>) -> AnyWeakHandle {
        handle.any_handle()
    }
}

/// An entity on loan from its slot: the slot is empty until the lease is
/// ended with [`EntityMap::end_lease`]. The lease goes with the key of the
/// type `T` that its holder reads the entity as.
pub struct Lease<T> {
    entity: AnyEntity,
    pub id: EntityId,
    entity_type: TypeKey<T>,
}

impl<T> View for Lease<T> {
    type V = AnyEntity;

    /// The entity on loan.
    closed spec fn view(&self) -> AnyEntity {
        self.entity
    }
}

impl<T> Lease<T> {
    /// The slot that the entity is on loan from.
    pub closed spec fn spec_id(&self) -> EntityId {
        self.id
    }

    /// The identity of the type `T`, as the key of the lease holds it.
    pub closed spec fn spec_entity_type(&self) -> TypeId {
        self.entity_type@
    }

    /// The lease of `entity`, which the caller has taken out of slot `id`.
    pub(crate) fn new(id: EntityId, entity: AnyEntity, key: TypeKey<T>) -> (lease: Self)
        ensures
            lease.id() == id,
            lease@ == entity,
            lease.entity_type() == key@,
    {
        Lease { entity, id, entity_type: key }
    }

    /// The slot that the entity is on loan from.
    #[verifier::when_used_as_spec(spec_id)]
    pub fn id(&self) -> (id: EntityId)
        ensures
            id == self.id(),
    {
        self.id
    }

    /// The identity of the type `T`, as the key of the lease holds it.
    #[verifier::when_used_as_spec(spec_entity_type)]
    pub fn entity_type(&self) -> (entity_type: TypeId)
        ensures
            entity_type == self.entity_type(),
    {
        self.entity_type.id()
    }

    /// The entity on loan.
    pub fn entity(&self) -> (entity: &AnyEntity)
        ensures
            *entity == self@,
    {
        &self.entity
    }

    /// The entity on loan, for writing. What is written is what the slot
    /// holds once the lease is ended.
    pub fn entity_mut(&mut self) -> (entity: &mut AnyEntity)
        ensures
            *entity == old(self)@,
            final(self)@ == *final(entity),
            final(self).id() == old(self).id(),
            final(self).entity_type() == old(self).entity_type(),
    {
        &mut self.entity
    }

    /// Ends the loan outside the store and hands the entity over.
    pub fn into_entity(self) -> (entity: AnyEntity)
        ensures
            entity == self@,
    {
        self.entity
    }

    /// The entity on loan as a `T`, exactly if the entity is a `T`: its type
    /// has the identity that the key of the lease holds.
    pub fn get(&self) -> (value: Option<&T>) where T: 'static
        ensures
            value is Some <==> entity_type_of(self@) == self.entity_type(),
    {
        self.entity.downcast_ref_as(&self.entity_type)
    }

    /// The entity on loan as a `T` for writing, exactly if the entity is a
    /// `T`: its type has the identity that the key of the lease holds. The
    /// lease stays with its slot, and the entity stays of the type it is.
    pub fn get_mut(&mut self) -> (value: Option<&mut T>) where T: 'static
        ensures
            value is Some <==> entity_type_of(old(self)@) == old(self).entity_type(),
            final(self).id() == old(self).id(),
            final(self).entity_type() == old(self).entity_type(),
            entity_type_of(final(self)@) == entity_type_of(old(self)@),
            value is None ==> final(self)@ == old(self)@,
    {
        self.entity.downcast_mut_as(&self.entity_type)
    }
}

} // verus!

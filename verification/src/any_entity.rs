//! Entities with their concrete type erased, and the type identities that
//! tell them apart.

use std::any::Any;
use std::any::TypeId;
use std::marker::PhantomData;
use vstd::prelude::*;

verus! {

/// `std::any::TypeId`: the identity of a type. Contracts take it as a value
/// that is or is not the same as another.
#[verifier::external_type_specification]
#[verifier::external_body]
pub struct ExTypeId(TypeId);

/// An entity whose concrete type has been erased: a boxed
/// `dyn Any + Send + Sync`.
///
/// Contracts see no further into it than that two entities are or are not the
/// same value, and of which type an entity is. The concrete type is recovered
/// only by asking for it by name, and asking for another type yields nothing.
#[verifier::external_body]
pub struct AnyEntity {
    inner: Box<dyn Any + Send + Sync>,
}

/// The identity of the type `T`, as a value of a type that goes with `T`.
///
/// A key is made by [`TypeKey::of`] or copied from another key, and nothing
/// changes one, so the identity that a key holds is that of its `T`. What is
/// taken on trust of the narrowing of entities is stated over keys for that
/// reason: a key is how a contract speaks of the identity of `T`.
pub struct TypeKey<T> {
    id: TypeId,
    marker: PhantomData<T>,
}

impl<T> View for TypeKey<T> {
    type V = TypeId;

    /// The identity that the key holds.
    closed spec fn view(&self) -> TypeId {
        self.id
    }
}

/// The identity of the concrete type of an entity: what `Any::type_id` gives
/// for the boxed value.
pub uninterp spec fn entity_type_of(entity: AnyEntity) -> TypeId;

/// `TypeId::of`: the identity of the type `T`, in its key.
#[verifier::external_body]
pub(crate) fn key_of<T: 'static>() -> (key: TypeKey<T>)
{
    TypeKey { id: TypeId::of::<T>(), marker: PhantomData }
}

/// `==` on `TypeId`: two type identities compare equal exactly when they are
/// the same identity.
#[verifier::external_body]
pub(crate) fn type_id_eq(a: &TypeId, b: &TypeId) -> (same: bool)
    ensures
        same == (*a == *b),
{
    *a == *b
}

/// `Any::type_id` on the boxed value: the identity of its concrete type.
#[verifier::external_body]
pub(crate) fn type_of(entity: &AnyEntity) -> (id: TypeId)
    ensures
        id == entity_type_of(*entity),
{
    (*entity.inner).type_id()
}

/// `Box::new` and the coercion to `dyn Any + Send + Sync`: boxes a value and
/// forgets its type. The entity is of the type `T`, whose identity `key`
/// holds.
#[verifier::external_body]
pub(crate) fn erase<T: 'static + Send + Sync>(value: T, key: &TypeKey<T>) -> (entity: AnyEntity)
    ensures
        entity_type_of(entity) == key@,
{
    AnyEntity { inner: Box::new(value) }
}

/// `<dyn Any>::downcast_ref`: the boxed value, exactly if it is a `T`, that
/// is, if its type has the identity that `key` holds.
#[verifier::external_body]
pub(crate) fn peek<'a, T: 'static>(entity: &'a AnyEntity, key: &TypeKey<T>) -> (value: Option<
    &'a T,
>)
    ensures
        value is Some <==> entity_type_of(*entity) == key@,
{
    entity.inner.downcast_ref::<T>()
}

/// `<dyn Any>::downcast_mut`: the boxed value for writing, exactly if it is a
/// `T`, that is, if its type has the identity that `key` holds.
///
/// Whatever is written, the entity stays of the type it was: only a `T` can
/// be written over a `T`. Where nothing is handed out, the entity is as it
/// was.
#[verifier::external_body]
pub(crate) fn peek_mut<'a, T: 'static>(entity: &'a mut AnyEntity, key: &TypeKey<T>) -> (value:
    Option<&'a mut T>)
    ensures
        value is Some <==> entity_type_of(*old(entity)) == key@,
        entity_type_of(*final(entity)) == entity_type_of(*old(entity)),
        value is None ==> *final(entity) == *old(entity),
{
    entity.inner.downcast_mut::<T>()
}

/// `Box<dyn Any + Send + Sync>::downcast`: the box as a `Box<T>` exactly if
/// the value is a `T`, that is, if its type has the identity that `key`
/// holds, else the entity back.
#[verifier::external_body]
pub(crate) fn unbox<T: 'static>(entity: AnyEntity, key: &TypeKey<T>) -> (value: Result<
    Box<T>,
    AnyEntity,
>)
    ensures
        value is Ok <==> entity_type_of(entity) == key@,
        value matches Err(back) ==> back == entity,
{
    match entity.inner.downcast::<T>() {
        Ok(value) => Ok(value),
        Err(inner) => Err(AnyEntity { inner }),
    }
}

impl<T> TypeKey<T> {
    /// The key of the type `T`.
    pub fn of() -> (key: Self) where T: 'static
    {
        key_of::<T>()
    }

    /// The identity that the key holds.
    pub fn id(&self) -> (id: TypeId)
        ensures
            id == self@,
    {
        self.id
    }
}

impl<T> Clone for TypeKey<T> {
    fn clone(&self) -> (key: Self)
        ensures
            key == *self,
    {
        TypeKey { id: self.id, marker: PhantomData }
    }
}

impl AnyEntity {
    /// Boxes `value` and forgets its type, which is the one that `key`
    /// names.
    pub fn new_as<T: 'static + Send + Sync>(value: T, key: &TypeKey<T>) -> (entity: AnyEntity)
        ensures
            entity_type_of(entity) == key@,
    {
        erase(value, key)
    }

    /// Boxes `value` and forgets its type: [`AnyEntity::new_as`] with the key
    /// of `T`.
    pub fn new<T: 'static + Send + Sync>(value: T) -> (entity: AnyEntity)
    {
        let key = TypeKey::<T>::of();
        AnyEntity::new_as(value, &key)
    }

    /// The identity of the concrete type of the entity.
    pub fn entity_type(&self) -> (id: TypeId)
        ensures
            id == entity_type_of(*self),
    {
        type_of(self)
    }

    /// The entity as a `T`, exactly if it is of the type that `key` names.
    pub fn downcast_ref_as<'a, T: 'static>(&'a self, key: &TypeKey<T>) -> (value: Option<&'a T>)
        ensures
            value is Some <==> entity_type_of(*self) == key@,
    {
        peek(self, key)
    }

    /// The entity as a `T`, or nothing if it is of another type:
    /// [`AnyEntity::downcast_ref_as`] with the key of `T`.
    pub fn downcast_ref<T: 'static>(&self) -> (value: Option<&T>)
    {
        let key = TypeKey::<T>::of();
        self.downcast_ref_as(&key)
    }

    /// The entity as a `T` for writing, exactly if it is of the type that
    /// `key` names. The entity stays of the type it is.
    pub fn downcast_mut_as<'a, T: 'static>(&'a mut self, key: &TypeKey<T>) -> (value: Option<
        &'a mut T,
    >)
        ensures
            value is Some <==> entity_type_of(*old(self)) == key@,
            entity_type_of(*final(self)) == entity_type_of(*old(self)),
            value is None ==> *final(self) == *old(self),
    {
        peek_mut(self, key)
    }

    /// The entity as a `T` for writing, or nothing if it is of another type:
    /// [`AnyEntity::downcast_mut_as`] with the key of `T`. The entity stays of
    /// the type it is.
    pub fn downcast_mut<T: 'static>(&mut self) -> (value: Option<&mut T>)
        ensures
            entity_type_of(*final(self)) == entity_type_of(*old(self)),
            value is None ==> *final(self) == *old(self),
    {
        let key = TypeKey::<T>::of();
        self.downcast_mut_as(&key)
    }

    /// The entity as a `Box<T>`, exactly if it is of the type that `key`
    /// names, else the entity itself.
    pub fn downcast_as<T: 'static>(self, key: &TypeKey<T>) -> (value: Result<Box<T>, AnyEntity>)
        ensures
            value is Ok <==> entity_type_of(self) == key@,
            value matches Err(back) ==> back == self,
    {
        unbox(self, key)
    }

    /// The entity as a `Box<T>`, or the entity itself if it is of another
    /// type: [`AnyEntity::downcast_as`] with the key of `T`.
    pub fn downcast<T: 'static>(self) -> (value: Result<Box<T>, AnyEntity>)
        ensures
            value matches Err(back) ==> back == self,
    {
        let key = TypeKey::<T>::of();
        self.downcast_as(&key)
    }
}

} // verus!

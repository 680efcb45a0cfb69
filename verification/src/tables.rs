//! The two slot-map tables of the store, and what is taken on trust of them.
//!
//! The reference counts live in a `slotmap::SlotMap`, which also issues the
//! identifiers; the entities live in a `slotmap::SecondaryMap` under the same
//! keys. Nothing but the functions of this file touches either table, so
//! neither is ever detached from or iterated over.
//!
//! Each function here is one call into `slotmap`, and its contract is taken
//! from the source of that call, not proved. A function that changes a table
//! is also taken not to unwind on what its `requires` admits, short of a
//! machine that runs out of memory.

use crate::any_entity::AnyEntity;
use crate::entity_id::EntityId;
use slotmap::DefaultKey;
use slotmap::Key;
use slotmap::KeyData;
use slotmap::SecondaryMap;
use slotmap::SlotMap;
use vstd::prelude::*;

verus! {

/// The most entries the count table takes: a slot map numbers its slots from
/// one and keeps the last index for the null key.
pub const MAX_SLOTS: usize = 0xffff_fffe;

/// The reference counts by identifier: a `SlotMap<DefaultKey, usize>`.
#[verifier::external_body]
pub struct CountTable {
    inner: SlotMap<DefaultKey, usize>,
}

/// The entities by identifier: a `SecondaryMap<DefaultKey, AnyEntity>`.
#[verifier::external_body]
pub struct EntityTable {
    inner: SecondaryMap<DefaultKey, AnyEntity>,
}

/// The keys a count table holds, each by its 64-bit form, with their values.
pub uninterp spec fn count_entries(table: CountTable) -> Map<EntityId, usize>;

/// The keys an entity table holds, each by its 64-bit form, with their
/// entities.
pub uninterp spec fn entity_entries(table: EntityTable) -> Map<EntityId, AnyEntity>;

impl CountTable {
    /// `SlotMap::new`: a table without entries.
    #[verifier::external_body]
    pub(crate) fn new() -> (table: CountTable)
        ensures
            (count_entries(table) == Map::<EntityId, usize>::empty()),
    {
        CountTable { inner: SlotMap::new() }
    }

    /// `SlotMap::len`: the number of entries.
    #[verifier::external_body]
    pub(crate) fn len(&self) -> (len: usize)
        ensures
            len == count_entries(*self).len(),
    {
        self.inner.len()
    }

    /// `SlotMap::insert`, with `KeyData::as_ffi` on the key it returns.
    ///
    /// The value goes under a key that the table did not hold. The key has an
    /// odd version and is not the null key, and its slot is that of no other
    /// entry: the table stores the value in a vacant slot or in a new one.
    /// `insert` panics on a full table only; a table that was never detached
    /// from is full when it has `MAX_SLOTS` entries.
    #[verifier::external_body]
    pub(crate) fn insert(&mut self, value: usize) -> (id: EntityId)
        requires
            count_entries(*old(self)).dom().finite(),
            count_entries(*old(self)).len() < MAX_SLOTS,
        ensures
            id.is_key(),
            !count_entries(*old(self)).contains_key(id),
            count_entries(*final(self)) == count_entries(*old(self)).insert(id, value),
            forall|other: EntityId| #[trigger]
                count_entries(*old(self)).contains_key(other) ==> other.slot_index()
                    != id.slot_index(),
        no_unwind
    {
        EntityId { bits: self.inner.insert(value).data().as_ffi() }
    }

    /// `SlotMap::get`, with `KeyData::from_ffi` on the way in: the value
    /// under `id`, if the table holds that key.
    #[verifier::external_body]
    pub(crate) fn get(&self, id: EntityId) -> (value: Option<usize>)
        requires
            id.is_key(),
        ensures
            value == (if count_entries(*self).contains_key(id) {
                Some(count_entries(*self)[id])
            } else {
                None::<usize>
            }),
    {
        self.inner.get(DefaultKey::from(KeyData::from_ffi(id.bits))).copied()
    }

    /// `IndexMut::index_mut` of `SlotMap`, which panics on a key that the
    /// table does not hold: overwrites the value under `id`.
    #[verifier::external_body]
    pub(crate) fn set(&mut self, id: EntityId, value: usize)
        requires
            id.is_key(),
            count_entries(*old(self)).contains_key(id),
        ensures
            count_entries(*final(self)) == count_entries(*old(self)).insert(id, value),
        no_unwind
    {
        self.inner[DefaultKey::from(KeyData::from_ffi(id.bits))] = value;
    }

    /// `SlotMap::remove`: takes the entry under `id` out and returns its
    /// value, if the table holds that key.
    #[verifier::external_body]
    pub(crate) fn remove(&mut self, id: EntityId) -> (value: Option<usize>)
        requires
            id.is_key(),
        ensures
            count_entries(*final(self)) == count_entries(*old(self)).remove(id),
            value == (if count_entries(*old(self)).contains_key(id) {
                Some(count_entries(*old(self))[id])
            } else {
                None::<usize>
            }),
        no_unwind
    {
        self.inner.remove(DefaultKey::from(KeyData::from_ffi(id.bits)))
    }
}

impl EntityTable {
    /// `SecondaryMap::new`: a table without entries.
    #[verifier::external_body]
    pub(crate) fn new() -> (table: EntityTable)
        ensures
            (entity_entries(table) == Map::<EntityId, AnyEntity>::empty()),
    {
        EntityTable { inner: SecondaryMap::new() }
    }

    /// `SecondaryMap::get`, with `KeyData::from_ffi` on the way in: the
    /// entity under `id`, if the table holds that key.
    #[verifier::external_body]
    pub(crate) fn get(&self, id: EntityId) -> (entity: Option<&AnyEntity>)
        requires
            id.is_key(),
        ensures
            entity == (if entity_entries(*self).contains_key(id) {
                Some(&entity_entries(*self)[id])
            } else {
                None::<&AnyEntity>
            }),
    {
        self.inner.get(DefaultKey::from(KeyData::from_ffi(id.bits)))
    }

    /// `SecondaryMap::insert`: puts `entity` under `id` and returns what was
    /// there.
    ///
    /// A secondary map keeps one entry for each slot index and lets a key of
    /// another generation displace or block the entry of its slot. The
    /// contract leaves that case out: no other key of the table may share the
    /// slot of `id`.
    #[verifier::external_body]
    pub(crate) fn insert(&mut self, id: EntityId, entity: AnyEntity) -> (previous: Option<
        AnyEntity,
    >)
        requires
            id.is_key(),
            forall|other: EntityId| #[trigger]
                entity_entries(*old(self)).contains_key(other) && other.slot_index()
                    == id.slot_index() ==> other == id,
        ensures
            entity_entries(*final(self)) == entity_entries(*old(self)).insert(id, entity),
            previous == (if entity_entries(*old(self)).contains_key(id) {
                Some(entity_entries(*old(self))[id])
            } else {
                None::<AnyEntity>
            }),
        no_unwind
    {
        self.inner.insert(DefaultKey::from(KeyData::from_ffi(id.bits)), entity)
    }

    /// `SecondaryMap::remove`: takes the entity under `id` out, if the table
    /// holds that key.
    #[verifier::external_body]
    pub(crate) fn remove(&mut self, id: EntityId) -> (entity: Option<AnyEntity>)
        requires
            id.is_key(),
        ensures
            entity_entries(*final(self)) == entity_entries(*old(self)).remove(id),
            entity == (if entity_entries(*old(self)).contains_key(id) {
                Some(entity_entries(*old(self))[id])
            } else {
                None::<AnyEntity>
            }),
        no_unwind
    {
        self.inner.remove(DefaultKey::from(KeyData::from_ffi(id.bits)))
    }
}

} // verus!

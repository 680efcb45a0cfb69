//! The store as a mathematical value, and each operation as a step on it.

use crate::any_entity::AnyEntity;
use crate::entity_id::EntityId;
use vstd::prelude::*;

verus! {

/// What an [`crate::EntityMap`] holds.
#[verifier::ext_equal]
pub struct EntityMapView {
    /// The reference count of every live slot.
    pub counts: Map<EntityId, nat>,
    /// The entity of every slot that is filled and not on lease.
    pub entities: Map<EntityId, AnyEntity>,
    /// The entities whose count fell to zero, oldest first, until drained.
    pub dropped: Seq<(EntityId, AnyEntity)>,
}

impl EntityMapView {
    /// The store without slots.
    pub open spec fn empty() -> Self {
        EntityMapView { counts: Map::empty(), entities: Map::empty(), dropped: Seq::empty() }
    }

    /// What holds of every store: only live slots hold an entity, and a live
    /// slot has a count of one or more.
    pub open spec fn inv(self) -> bool {
        &&& self.counts.dom().finite()
        &&& self.entities.dom().subset_of(self.counts.dom())
        &&& forall|id: EntityId| #[trigger] self.counts.contains_key(id) ==> self.counts[id] >= 1
    }

    /// Whether the slot has a reference count, that is, a strong handle.
    pub open spec fn is_live(self, id: EntityId) -> bool {
        self.counts.contains_key(id)
    }

    /// Whether the slot holds its entity: it is filled and not on lease.
    pub open spec fn is_present(self, id: EntityId) -> bool {
        self.entities.contains_key(id)
    }

    /// A new slot `id` with a count of one and no entity.
    pub open spec fn reserve(self, id: EntityId) -> Self {
        EntityMapView { counts: self.counts.insert(id, 1), ..self }
    }

    /// The slot `id` holds `entity`.
    pub open spec fn put(self, id: EntityId, entity: AnyEntity) -> Self {
        EntityMapView { entities: self.entities.insert(id, entity), ..self }
    }

    /// The entity of slot `id` is taken out.
    pub open spec fn take(self, id: EntityId) -> Self {
        EntityMapView { entities: self.entities.remove(id), ..self }
    }

    /// One more unit of the count of slot `id`.
    pub open spec fn acquire(self, id: EntityId) -> Self {
        EntityMapView { counts: self.counts.insert(id, self.counts[id] + 1), ..self }
    }

    /// One unit less of the count of slot `id`. With the last unit the slot
    /// goes, and its entity joins the queue of dropped entities.
    pub open spec fn release(self, id: EntityId) -> Self {
        if self.counts[id] > 1 {
            EntityMapView {
                counts: self.counts.insert(id, (self.counts[id] - 1) as nat),
                ..self
            }
        } else {
            EntityMapView {
                counts: self.counts.remove(id),
                entities: self.entities.remove(id),
                dropped: self.dropped.push((id, self.entities[id])),
            }
        }
    }

    /// The queue of dropped entities is emptied.
    pub open spec fn drain(self) -> Self {
        EntityMapView { dropped: Seq::empty(), ..self }
    }
}

} // verus!

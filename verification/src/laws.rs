//! What holds of the store over whole runs of operations.
//!
//! Every operation of the store is a step on [`EntityMapView`], so a run of
//! operations is a walk through views. The laws here follow such walks.

use crate::any_entity::entity_type_of;
use crate::any_entity::AnyEntity;
use crate::entity_id::EntityId;
use crate::model::EntityMapView;
use vstd::prelude::*;

verus! {

/// What a holder does with a strong handle: take one more, or give one up.
pub enum HandleStep {
    /// [`crate::AnyHandle::acquire`].
    Acquire,
    /// [`crate::AnyHandle::release`].
    Release,
}

/// The store after one step on the handles of slot `id`.
pub open spec fn step(state: EntityMapView, id: EntityId, op: HandleStep) -> EntityMapView {
    match op {
        HandleStep::Acquire => state.acquire(id),
        HandleStep::Release => state.release(id),
    }
}

/// The store after the steps `ops` on the handles of slot `id`, in order.
pub open spec fn run(state: EntityMapView, id: EntityId, ops: Seq<HandleStep>) -> EntityMapView
    decreases ops.len(),
{
    if ops.len() == 0 {
        state
    } else {
        step(run(state, id, ops.drop_last()), id, ops.last())
    }
}

/// The number of strong handles that are left of `handles` after `ops`.
pub open spec fn outstanding(handles: int, ops: Seq<HandleStep>) -> int
    decreases ops.len(),
{
    if ops.len() == 0 {
        handles
    } else {
        match ops.last() {
            HandleStep::Acquire => outstanding(handles, ops.drop_last()) + 1,
            HandleStep::Release => outstanding(handles, ops.drop_last()) - 1,
        }
    }
}

/// Whether each step of `ops` has a handle to be made through: before every
/// step at least one of the handles is left.
pub open spec fn feasible(handles: int, ops: Seq<HandleStep>) -> bool {
    forall|k: int| 0 <= k < ops.len() ==> outstanding(handles, #[trigger] ops.take(k)) >= 1
}

/// How often slot `id` stands in the queue of dropped entities.
pub open spec fn disposals(dropped: Seq<(EntityId, AnyEntity)>, id: EntityId) -> nat
    decreases dropped.len(),
{
    if dropped.len() == 0 {
        0
    } else if dropped.last().0 == id {
        disposals(dropped.drop_last(), id) + 1
    } else {
        disposals(dropped.drop_last(), id)
    }
}

/// The store after one handle to each slot of `ids` was released, in order.
pub open spec fn release_all(state: EntityMapView, ids: Seq<EntityId>) -> EntityMapView
    decreases ids.len(),
{
    if ids.len() == 0 {
        state
    } else {
        release_all(state, ids.drop_last()).release(ids.last())
    }
}

/// The pairs that the slots `ids` leave in the queue when their entities are
/// dropped in order.
pub open spec fn dropped_pairs(state: EntityMapView, ids: Seq<EntityId>) -> Seq<
    (EntityId, AnyEntity),
> {
    Seq::new(ids.len(), |i: int| (ids[i], state.entities[ids[i]]))
}

/// Every step on the store keeps its invariant.
pub proof fn steps_keep_inv(state: EntityMapView, id: EntityId, entity: AnyEntity)
    requires
        state.inv(),
    ensures
        EntityMapView::empty().inv(),
        state.reserve(id).inv(),
        state.is_live(id) ==> state.put(id, entity).inv(),
        state.take(id).inv(),
        state.is_live(id) ==> state.acquire(id).inv(),
        state.is_live(id) ==> state.release(id).inv(),
        state.drain().inv(),
{
}

/// Queueing an entity adds one disposal for its slot and none for another.
pub proof fn disposals_push(
    dropped: Seq<(EntityId, AnyEntity)>,
    pair: (EntityId, AnyEntity),
    id: EntityId,
)
    ensures
        disposals(dropped.push(pair), id) == disposals(dropped, id) + (if pair.0 == id {
            1nat
        } else {
            0nat
        }),
{
    assert(dropped.push(pair).drop_last() =~= dropped);
}

/// However the strong handles of one slot are acquired and released, the
/// entity of the slot is disposed of exactly once, and exactly when the last
/// handle is released.
///
/// While a handle is left, the slot is live with as many units as handles,
/// holds its entity, and nothing has joined the queue. Once none is left,
/// the slot is gone and the queue has grown by the slot with its entity,
/// once.
pub proof fn disposed_once_when_last_handle_goes(
    state: EntityMapView,
    id: EntityId,
    ops: Seq<HandleStep>,
)
    requires
        state.inv(),
        state.is_live(id),
        state.is_present(id),
        feasible(state.counts[id] as int, ops),
    ensures
        run(state, id, ops).inv(),
        outstanding(state.counts[id] as int, ops) >= 0,
        outstanding(state.counts[id] as int, ops) > 0 ==> {
            &&& run(state, id, ops).is_live(id)
            &&& run(state, id, ops).counts[id] == outstanding(state.counts[id] as int, ops)
            &&& run(state, id, ops).entities == state.entities
            &&& run(state, id, ops).dropped == state.dropped
        },
        outstanding(state.counts[id] as int, ops) == 0 ==> {
            &&& !run(state, id, ops).is_live(id)
            &&& !run(state, id, ops).is_present(id)
            &&& run(state, id, ops).dropped == state.dropped.push((id, state.entities[id]))
        },
        disposals(run(state, id, ops).dropped, id) == disposals(state.dropped, id) + (if outstanding(
            state.counts[id] as int,
            ops,
        ) == 0 {
            1nat
        } else {
            0nat
        }),
    decreases ops.len(),
{
    if ops.len() > 0 {
        let before = ops.drop_last();
        assert forall|k: int| 0 <= k < before.len() implies outstanding(
            state.counts[id] as int,
            #[trigger] before.take(k),
        ) >= 1 by {
            assert(before.take(k) =~= ops.take(k));
        }
        disposed_once_when_last_handle_goes(state, id, before);
        disposals_push(state.dropped, (id, state.entities[id]), id);
    }
}

/// A weak handle upgrades exactly while a strong handle to its slot is left:
/// [`crate::AnyWeakHandle::upgrade`] yields a handle exactly on a live slot.
/// While one is left the entity of the slot is the one it was and has not
/// been queued for disposal.
pub proof fn upgrade_follows_handles(state: EntityMapView, id: EntityId, ops: Seq<HandleStep>)
    requires
        state.inv(),
        state.is_live(id),
        state.is_present(id),
        feasible(state.counts[id] as int, ops),
    ensures
        run(state, id, ops).is_live(id) <==> outstanding(state.counts[id] as int, ops) > 0,
        run(state, id, ops).is_live(id) ==> {
            &&& run(state, id, ops).is_present(id)
            &&& run(state, id, ops).entities[id] == state.entities[id]
            &&& disposals(run(state, id, ops).dropped, id) == disposals(state.dropped, id)
        },
{
    disposed_once_when_last_handle_goes(state, id, ops);
}

/// A lease empties its slot, so no second lease of the slot can be taken
/// before the first is ended; and ending it with the entity as it has become
/// puts that entity where every handle to the slot finds it. The counts and
/// the queue are as before, and so is the type of the entity in the slot if
/// the entity was changed as one of its type.
pub proof fn lease_round_trip(state: EntityMapView, id: EntityId, changed: AnyEntity)
    requires
        state.inv(),
        state.is_present(id),
    ensures
        !state.take(id).is_present(id),
        state.take(id).is_live(id),
        state.take(id).put(id, changed).is_present(id),
        state.take(id).put(id, changed).entities[id] == changed,
        state.take(id).put(id, changed) == state.put(id, changed),
        state.take(id).put(id, changed).inv(),
        entity_type_of(changed) == entity_type_of(state.entities[id]) ==> entity_type_of(
            state.take(id).put(id, changed).entities[id],
        ) == entity_type_of(state.entities[id]),
{
}

/// Releasing the only handle of each of `n` distinct slots queues exactly
/// `n` pairs, the slots with their entities in the order of release, and
/// destroys nothing. Draining hands them over and leaves nothing for the
/// next drain.
pub proof fn drain_returns_each_dropped_entity(state: EntityMapView, ids: Seq<EntityId>)
    requires
        state.inv(),
        ids.no_duplicates(),
        forall|i: int|
            0 <= i < ids.len() ==> {
                &&& #[trigger] state.is_live(ids[i])
                &&& state.counts[ids[i]] == 1
                &&& state.is_present(ids[i])
            },
    ensures
        release_all(state, ids).inv(),
        release_all(state, ids).dropped == state.dropped + dropped_pairs(state, ids),
        release_all(state, ids).dropped.len() == state.dropped.len() + ids.len(),
        forall|i: int| 0 <= i < ids.len() ==> !release_all(state, ids).is_live(#[trigger] ids[i]),
        forall|other: EntityId|
            !ids.contains(other) ==> {
                &&& release_all(state, ids).counts.contains_key(other)
                    == state.counts.contains_key(other)
                &&& release_all(state, ids).counts[other] == state.counts[other]
                &&& release_all(state, ids).entities.contains_key(other)
                    == state.entities.contains_key(other)
                &&& release_all(state, ids).entities[other] == state.entities[other]
            },
        release_all(state, ids).drain().dropped.len() == 0,
        release_all(state, ids).drain().drain() == release_all(state, ids).drain(),
    decreases ids.len(),
{
    if ids.len() > 0 {
        let before = ids.drop_last();
        let last = ids.last();
        drain_returns_each_dropped_entity(state, before);
        assert(!before.contains(last)) by {
            if before.contains(last) {
                let j = choose|j: int| 0 <= j < before.len() && before[j] == last;
                assert(ids[j] == ids[ids.len() - 1]);
            }
        }
        assert(state.is_live(ids[ids.len() - 1]));
        assert forall|other: EntityId| !ids.contains(other) implies {
            &&& release_all(state, ids).counts.contains_key(other) == state.counts.contains_key(
                other,
            )
            &&& release_all(state, ids).counts[other] == state.counts[other]
            &&& release_all(state, ids).entities.contains_key(other)
                == state.entities.contains_key(other)
            &&& release_all(state, ids).entities[other] == state.entities[other]
        } by {
            assert(!before.contains(other)) by {
                if before.contains(other) {
                    let j = choose|j: int| 0 <= j < before.len() && before[j] == other;
                    assert(ids[j] == other);
                }
            }
            assert(ids[ids.len() - 1] != other);
        }
        assert forall|i: int| 0 <= i < ids.len() implies !release_all(state, ids).is_live(
            #[trigger] ids[i],
        ) by {
            if i < before.len() {
                assert(before[i] == ids[i]);
            }
        }
    }
}

} // verus!

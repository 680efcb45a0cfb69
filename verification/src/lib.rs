//! A store of type-erased, reference-counted entities.
//!
//! Every entity lives in a slot of an [`EntityMap`] and is named by an
//! [`EntityId`]. Strong handles hold units of the slot's reference count, weak
//! handles only name the slot, and a lease takes the entity out of the store
//! for exclusive access until it is handed back. An entity whose count falls
//! to zero is queued and leaves the store when the queue is drained.
//!
//! The store is a plain value: whoever shares it between threads puts it
//! behind a lock and calls these functions with the lock held.
//!
//! - [`entity_map`] has the store, [`handle`] the handles and the lease.
//! - [`model`] says what a store holds and what each operation does to it.
//! - [`laws`] follows whole runs of operations.
//! - [`tables`] and [`any_entity`] hold what is taken on trust: the slot maps
//!   under the store, and entities, type identities and the keys of types as
//!   `std::any` has them.
//! - [`thread`] is a conversation thread, an entity that a stream of events
//!   updates.

pub mod any_entity;
pub mod entity_id;
pub mod entity_map;
pub mod error;
pub mod handle;
pub mod laws;
pub mod model;
pub mod tables;
pub mod thread;

pub use any_entity::AnyEntity;
pub use any_entity::TypeKey;
pub use entity_id::EntityId;
pub use entity_map::EntityMap;
pub use error::EntityError;
pub use handle::AnyHandle;
pub use handle::AnyWeakHandle;
pub use handle::Handle;
pub use handle::Lease;
pub use handle::Slot;
pub use handle::WeakHandle;
pub use model::EntityMapView;

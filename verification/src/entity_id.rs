//! Slot identifiers.

use vstd::prelude::*;

verus! {

/// The number of slot indices: a key's low 32 bits are its index, the bits
/// above them its version.
pub const INDEX_SPAN: u64 = 0x1_0000_0000;

/// The index that only the null key has.
pub const NULL_INDEX: u64 = 0xffff_ffff;

/// Names one slot of an [`crate::EntityMap`].
///
/// An identifier is the 64-bit form of a slot map key. Two identifiers are
/// equal when they name the same slot in the same generation.
#[derive(Clone, Copy, Debug, PartialEq, Eq, Hash, Structural)]
pub struct EntityId {
    pub(crate) bits: u64,
}

impl View for EntityId {
    type V = u64;

    closed spec fn view(&self) -> u64 {
        self.bits
    }
}

impl EntityId {
    /// The index of the slot that the identifier names.
    pub open spec fn slot_index(self) -> int {
        self@ as int % INDEX_SPAN as int
    }

    /// The generation of the slot that the identifier names.
    pub open spec fn version(self) -> int {
        self@ as int / INDEX_SPAN as int
    }

    /// Whether these bits are the 64-bit form of a key a slot map can hold:
    /// the version is odd and the index is not the null key's. Every
    /// identifier that a program holds is one.
    #[verifier::type_invariant]
    pub open spec fn is_key(self) -> bool {
        self.version() % 2 == 1 && self.slot_index() != NULL_INDEX as int
    }

    /// The identifier as an integer, for logs and foreign code.
    pub fn as_u64(&self) -> (bits: u64)
        ensures
            bits == self@,
    {
        self.bits
    }
}

} // verus!

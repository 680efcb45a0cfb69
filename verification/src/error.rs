//! What an operation on the store reports when it cannot go ahead.

use vstd::prelude::*;
use vstd::string::StringExecFns;

verus! {

/// Why an operation on the store did not go ahead.
#[derive(Clone, Copy, Debug, PartialEq, Eq, Structural)]
pub enum EntityError {
    /// The slot has no strong handle left: its entity was released.
    Released,
    /// The slot holds no entity to lease. It is on lease already, or was
    /// never filled.
    CircularLease,
}

impl EntityError {
    /// The text that goes with the error.
    pub open spec fn spec_message(self) -> Seq<char> {
        match self {
            EntityError::Released => "entity release"@,
            EntityError::CircularLease =>
                "Circular entity lease. Is the entity already being updated?"@,
        }
    }

    /// The text that goes with the error.
    pub fn message(&self) -> (text: String)
        ensures
            text@ == self.spec_message(),
    {
        match self {
            EntityError::Released => String::from_str("entity release"),
            EntityError::CircularLease => String::from_str(
                "Circular entity lease. Is the entity already being updated?",
            ),
        }
    }
}

} // verus!

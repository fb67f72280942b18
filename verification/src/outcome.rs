//! What one instruction comes to: a mutation for the host to apply, nothing at all, or
//! a rejection.

use vstd::prelude::*;

verus! {

/// Why an instruction was turned away. A rejected instruction changes nothing.
#[derive(Clone, Copy, Debug, PartialEq, Eq, Structural)]
pub enum Rejection {
    /// The registry holds no record for the invoking identity.
    UnknownIdentity,
    /// The nonce is not greater than the one stored for the invoking identity.
    StaleNonce,
    /// The invoking identity does not own the object that the instruction names.
    NotOwner,
}

/// The one mutation of the shared game state that an authorized instruction asks for.
/// Objects are named by their full four-word identifiers.
#[derive(Clone, Copy, Debug, PartialEq, Eq)]
pub enum Action {
    /// Advance the simulation by one tick.
    Run,
    /// Place the object at the position.
    Place { object: [u64; 4], position: usize },
    /// Upgrade the object's inventory entry.
    Upgrade { object: [u64; 4] },
    /// Create an inventory entry for the object, tagged with the feature flag and owned
    /// by the given identity.
    Mint { object: [u64; 4], feature: u64, owner: [u64; 4] },
    /// Hand the object to the claimant, if the nonce matches the one kept for the object.
    Claim { nonce: u64, object: [u64; 4], claimant: [u64; 4] },
    /// Remove the object from the inventory.
    Drop { object: [u64; 4] },
}

/// The result of processing one instruction.
#[derive(Clone, Copy, Debug, PartialEq, Eq)]
pub enum Outcome {
    /// The instruction was authorized; the host applies the action.
    Dispatched(Action),
    /// The opcode is not a known one: nothing happens, and that is no failure.
    Ignored,
    /// A check failed; nothing was changed.
    Rejected(Rejection),
}

} // verus!

//! What holds of every instruction, every caller and every registry.

use crate::game::{action_of, caller_bound, known, outcome_of, owner_bound, registry_after};
use crate::instruction::{nonce_of, opcode_of, OP_MINT, OP_RUN};
use crate::outcome::{Action, Outcome, Rejection};
use crate::player::PlayerView;
use vstd::prelude::*;

verus! {

/// No replay. Once an instruction that consumes a nonce has been accepted for a
/// caller, every instruction of that kind from the same caller with the same nonce, or
/// a smaller one, is rejected as stale and changes nothing: the accepted instruction
/// itself, sent again, is one of them.
pub proof fn lemma_replay_is_rejected(
    registry: Map<Seq<u64>, PlayerView>,
    accepted: [u64; 4],
    later: [u64; 4],
    caller: [u64; 4],
)
    requires
        caller_bound(opcode_of(accepted[0])),
        caller_bound(opcode_of(later[0])),
        outcome_of(registry, accepted, caller) is Dispatched,
        nonce_of(later[0]) <= nonce_of(accepted[0]),
    ensures
        outcome_of(registry_after(registry, accepted, caller), later, caller) == Outcome::Rejected(
            Rejection::StaleNonce,
        ),
        registry_after(registry_after(registry, accepted, caller), later, caller) == registry_after(
            registry,
            accepted,
            caller,
        ),
{
}

/// Nonces need not be consecutive. After an accepted instruction, a greater nonce from
/// the same caller passes the replay check: a mint with it is dispatched, and an
/// instruction on an object is turned away only if the caller does not own the object.
pub proof fn lemma_greater_nonce_is_fresh(
    registry: Map<Seq<u64>, PlayerView>,
    accepted: [u64; 4],
    later: [u64; 4],
    caller: [u64; 4],
)
    requires
        caller_bound(opcode_of(accepted[0])),
        caller_bound(opcode_of(later[0])),
        outcome_of(registry, accepted, caller) is Dispatched,
        nonce_of(later[0]) > nonce_of(accepted[0]),
    ensures
        outcome_of(registry_after(registry, accepted, caller), later, caller) is Dispatched
            || outcome_of(registry_after(registry, accepted, caller), later, caller)
            == Outcome::Rejected(Rejection::NotOwner),
        opcode_of(later[0]) == OP_MINT ==> outcome_of(
            registry_after(registry, accepted, caller),
            later,
            caller,
        ) is Dispatched,
        registry[caller@].owned.contains(later[1]) ==> outcome_of(
            registry_after(registry, accepted, caller),
            later,
            caller,
        ) is Dispatched,
{
}

/// The ownership gate. An instruction to place, upgrade or drop an object that the
/// caller does not own is rejected: no action is handed out and the registry stays as
/// it was. A caller without a record owns nothing.
pub proof fn lemma_ownership_gate(
    registry: Map<Seq<u64>, PlayerView>,
    command: [u64; 4],
    caller: [u64; 4],
)
    requires
        owner_bound(opcode_of(command[0])),
        !(registry.contains_key(caller@) && registry[caller@].owned.contains(command[1])),
    ensures
        outcome_of(registry, command, caller) is Rejected,
        registry_after(registry, command, caller) == registry,
{
}

/// An unknown opcode is no failure and no transition: the instruction is ignored and
/// the registry stays as it was.
pub proof fn lemma_unknown_opcode_is_ignored(
    registry: Map<Seq<u64>, PlayerView>,
    command: [u64; 4],
    caller: [u64; 4],
)
    requires
        !known(opcode_of(command[0])),
    ensures
        outcome_of(registry, command, caller) == Outcome::Ignored,
        registry_after(registry, command, caller) == registry,
{
}

/// Every known opcode comes to an action or to a rejection, never to nothing.
pub proof fn lemma_known_opcode_is_not_ignored(
    registry: Map<Seq<u64>, PlayerView>,
    command: [u64; 4],
    caller: [u64; 4],
)
    requires
        known(opcode_of(command[0])),
    ensures
        outcome_of(registry, command, caller) != Outcome::Ignored,
        action_of(command, caller) is Some,
{
}

/// Anyone may run the simulation: whoever calls, whatever the registry holds and
/// whatever else the instruction carries, a run is dispatched and the registry stays as
/// it was.
pub proof fn lemma_run_asks_nothing(
    registry: Map<Seq<u64>, PlayerView>,
    command: [u64; 4],
    caller: [u64; 4],
)
    requires
        opcode_of(command[0]) == OP_RUN,
    ensures
        outcome_of(registry, command, caller) == Outcome::Dispatched(Action::Run),
        registry_after(registry, command, caller) == registry,
{
}

/// All or nothing. The registry changes only when an action is handed out, and then
/// only if the instruction consumes a nonce.
pub proof fn lemma_registry_changes_only_on_dispatch(
    registry: Map<Seq<u64>, PlayerView>,
    command: [u64; 4],
    caller: [u64; 4],
)
    ensures
        !(outcome_of(registry, command, caller) is Dispatched) ==> registry_after(
            registry,
            command,
            caller,
        ) == registry,
        !caller_bound(opcode_of(command[0])) ==> registry_after(registry, command, caller)
            == registry,
{
}

/// Stored nonces only grow. Processing an instruction neither adds nor removes a
/// record, touches no record but the caller's, and changes nothing of the caller's but
/// the nonce, which becomes the instruction's, a greater one.
pub proof fn lemma_nonces_only_grow(
    registry: Map<Seq<u64>, PlayerView>,
    command: [u64; 4],
    caller: [u64; 4],
    identity: Seq<u64>,
)
    ensures
        registry_after(registry, command, caller).dom() == registry.dom(),
        identity != caller@ ==> registry_after(registry, command, caller)[identity]
            == registry[identity],
        registry_after(registry, command, caller)[identity].identity
            == registry[identity].identity,
        registry_after(registry, command, caller)[identity].owned == registry[identity].owned,
        registry_after(registry, command, caller)[identity].nonce >= registry[identity].nonce,
        registry_after(registry, command, caller) != registry ==> registry_after(
            registry,
            command,
            caller,
        )[caller@].nonce == nonce_of(command[0]) > registry[caller@].nonce,
{
    let after = registry_after(registry, command, caller);
    if after != registry {
        assert(registry.contains_key(caller@));
        assert(after.dom() =~= registry.dom());
    }
}

} // verus!

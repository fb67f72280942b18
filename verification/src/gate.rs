//! The authorization gate: the checks that bind an instruction to the identity that
//! submits it. Nothing here changes the registry; a passed check hands back the
//! caller's record as it is to be stored, with the nonce consumed.

use crate::outcome::Rejection;
use crate::player::{Player, PlayerView};
use crate::registry::Registry;
use vstd::prelude::*;

verus! {

/// Why the replay check turns a caller away, if it does: the caller has no record, or
/// the nonce is not greater than the stored one.
pub open spec fn caller_refusal(
    registry: Map<Seq<u64>, PlayerView>,
    caller: Seq<u64>,
    nonce: u64,
) -> Option<Rejection> {
    if !registry.contains_key(caller) {
        Some(Rejection::UnknownIdentity)
    } else if nonce <= registry[caller].nonce {
        Some(Rejection::StaleNonce)
    } else {
        None
    }
}

/// Why the ownership check turns a caller away, if it does: whatever the replay check
/// objects to, and, where it passes, that the caller does not own the handle.
pub open spec fn owner_refusal(
    registry: Map<Seq<u64>, PlayerView>,
    caller: Seq<u64>,
    nonce: u64,
    handle: u64,
) -> Option<Rejection> {
    match caller_refusal(registry, caller, nonce) {
        Some(why) => Some(why),
        None => if registry[caller].owned.contains(handle) {
            None
        } else {
            Some(Rejection::NotOwner)
        },
    }
}

/// A record after one of its nonces was accepted: the nonce takes the place of the
/// stored one, and nothing else changes.
pub open spec fn admitted(record: PlayerView, nonce: u64) -> PlayerView {
    PlayerView { nonce: nonce, ..record }
}

/// The checks, one by one. The replay check passes exactly when the caller has a record
/// and the nonce is greater than the stored one; the ownership check, exactly when the
/// replay check passes and the record lists the handle.
pub proof fn lemma_checks_pass_exactly_when(
    registry: Map<Seq<u64>, PlayerView>,
    caller: Seq<u64>,
    nonce: u64,
    handle: u64,
)
    ensures
        caller_refusal(registry, caller, nonce) is None <==> registry.contains_key(caller)
            && nonce > registry[caller].nonce,
        owner_refusal(registry, caller, nonce, handle) is None <==> registry.contains_key(caller)
            && nonce > registry[caller].nonce && registry[caller].owned.contains(handle),
{
}

/// The replay check on the invoking identity. Where it passes, the result is the
/// caller's record with the nonce consumed.
pub fn authorize_caller(
    registry: &Registry,
    caller: &[u64; 4],
    nonce: u64,
) -> (verdict: Result<Player, Rejection>)
    requires
        registry.wf(),
    ensures
        verdict is Ok <==> caller_refusal(registry@, caller@, nonce) is None,
        verdict matches Err(why) ==> caller_refusal(registry@, caller@, nonce) == Some(why),
        verdict matches Ok(player) ==> player.wf(),
        verdict matches Ok(player) ==> player@ == admitted(registry@[caller@], nonce),
        verdict matches Ok(player) ==> player@.identity == caller@,
{
    match registry.lookup(caller) {
        None => Err(Rejection::UnknownIdentity),
        Some(player) => {
            let mut player = player;
            if player.check_and_increment_nonce(nonce) {
                Ok(player)
            } else {
                Err(Rejection::StaleNonce)
            }
        },
    }
}

/// The replay check on the invoking identity, and then the check that it owns the
/// handle. Where both pass, the result is the caller's record with the nonce consumed.
pub fn authorize_owner(
    registry: &Registry,
    caller: &[u64; 4],
    nonce: u64,
    handle: u64,
) -> (verdict: Result<Player, Rejection>)
    requires
        registry.wf(),
    ensures
        verdict is Ok <==> owner_refusal(registry@, caller@, nonce, handle) is None,
        verdict matches Err(why) ==> owner_refusal(registry@, caller@, nonce, handle) == Some(why),
        verdict matches Ok(player) ==> player.wf(),
        verdict matches Ok(player) ==> player@ == admitted(registry@[caller@], nonce),
        verdict matches Ok(player) ==> player@.identity == caller@,
{
    match authorize_caller(registry, caller, nonce) {
        Err(why) => Err(why),
        Ok(player) => {
            if player.owns(handle) {
                Ok(player)
            } else {
                Err(Rejection::NotOwner)
            }
        },
    }
}

} // verus!

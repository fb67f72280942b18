//! The transition engine: one instruction in, one outcome out.
//!
//! An instruction is decoded, checked against the registry and turned into the one
//! action that the host is to apply to the game state. The engine itself keeps nothing
//! between calls; what lasts is the registry, which the caller owns and passes in.

use crate::gate::{admitted, authorize_caller, authorize_owner, caller_refusal, owner_refusal};
use crate::instruction::{
    decode_mint_target, decode_position, feature_of, mint_target, nonce_of, opcode_of,
    position_of, Header, OP_CLAIM, OP_DROP, OP_MINT, OP_PLACE, OP_RUN, OP_UPGRADE,
};
use crate::object_id::{full_object_id, to_full_obj_id};
use crate::outcome::{Action, Outcome, Rejection};
use crate::player::{Player, PlayerView};
use crate::registry::Registry;
use vstd::prelude::*;

verus! {

/// The opcodes that act on an object of the caller's: place, upgrade, drop. They ask
/// for the replay check and for ownership of the object.
pub open spec fn owner_bound(opcode: u64) -> bool {
    opcode == OP_PLACE || opcode == OP_UPGRADE || opcode == OP_DROP
}

/// The opcodes that consume a nonce of the caller's: the owner-bound ones and mint.
pub open spec fn caller_bound(opcode: u64) -> bool {
    owner_bound(opcode) || opcode == OP_MINT
}

/// The opcodes that the engine knows. Any other is ignored.
pub open spec fn known(opcode: u64) -> bool {
    caller_bound(opcode) || opcode == OP_RUN || opcode == OP_CLAIM
}

/// Why an instruction is rejected, if it is. Run and claim ask nothing of the caller,
/// and neither does an opcode that the engine does not know.
pub open spec fn refusal_of(
    registry: Map<Seq<u64>, PlayerView>,
    command: [u64; 4],
    caller: [u64; 4],
) -> Option<Rejection> {
    let opcode = opcode_of(command[0]);
    let nonce = nonce_of(command[0]);
    if owner_bound(opcode) {
        owner_refusal(registry, caller@, nonce, command[1])
    } else if opcode == OP_MINT {
        caller_refusal(registry, caller@, nonce)
    } else {
        None
    }
}

/// The action that an instruction asks for, if its opcode is a known one.
pub open spec fn action_of(command: [u64; 4], caller: [u64; 4]) -> Option<Action> {
    let opcode = opcode_of(command[0]);
    let object = full_object_id(command[1]);
    if opcode == OP_RUN {
        Some(Action::Run)
    } else if opcode == OP_PLACE {
        Some(Action::Place { object, position: position_of(command[2]) })
    } else if opcode == OP_UPGRADE {
        Some(Action::Upgrade { object })
    } else if opcode == OP_MINT {
        Some(
            Action::Mint {
                object,
                feature: feature_of(command[0]),
                owner: mint_target(command[2], command[3]),
            },
        )
    } else if opcode == OP_CLAIM {
        Some(Action::Claim { nonce: nonce_of(command[0]), object, claimant: caller })
    } else if opcode == OP_DROP {
        Some(Action::Drop { object })
    } else {
        None
    }
}

/// What processing an instruction comes to.
pub open spec fn outcome_of(
    registry: Map<Seq<u64>, PlayerView>,
    command: [u64; 4],
    caller: [u64; 4],
) -> Outcome {
    match refusal_of(registry, command, caller) {
        Some(why) => Outcome::Rejected(why),
        None => match action_of(command, caller) {
            Some(action) => Outcome::Dispatched(action),
            None => Outcome::Ignored,
        },
    }
}

/// The registry after an instruction was processed: the caller's record has consumed
/// the nonce if the instruction needed one and was authorized; else nothing changed.
pub open spec fn registry_after(
    registry: Map<Seq<u64>, PlayerView>,
    command: [u64; 4],
    caller: [u64; 4],
) -> Map<Seq<u64>, PlayerView> {
    if caller_bound(opcode_of(command[0])) && refusal_of(registry, command, caller) is None {
        registry.insert(caller@, admitted(registry[caller@], nonce_of(command[0])))
    } else {
        registry
    }
}

/// Closes a caller-bound branch: a rejection is passed on, an authorized record is
/// committed and the action handed out.
fn commit(
    registry: &mut Registry,
    verdict: Result<Player, Rejection>,
    action: Action,
) -> (outcome: Outcome)
    requires
        old(registry).wf(),
        verdict matches Ok(player) ==> player.wf(),
    ensures
        final(registry).wf(),
        verdict matches Ok(player) ==> outcome == Outcome::Dispatched(action),
        verdict matches Ok(player) ==> final(registry)@ == old(registry)@.insert(
            player@.identity,
            player@,
        ),
        verdict matches Err(why) ==> outcome == Outcome::Rejected(why),
        verdict is Err ==> *final(registry) == *old(registry),
{
    match verdict {
        Ok(player) => {
            registry.store(player);
            Outcome::Dispatched(action)
        },
        Err(why) => Outcome::Rejected(why),
    }
}

/// The step function: decodes one instruction, checks it against the registry for the
/// invoking identity, commits the consumed nonce and tells what is to happen.
///
/// Every check is made before anything changes. A rejected instruction and one with an
/// unknown opcode leave the registry untouched, and so does an instruction that
/// consumes no nonce. Where an action is dispatched, the registry that this call leaves
/// and the action together are the transition: the host applies the action, which
/// cannot fail, before it processes the next instruction.
///
/// A claim is dispatched to whoever asks. Its nonce belongs to the object, not to the
/// caller, and is checked where the objects are kept: the action carries it there.
pub fn handle_command(
    registry: &mut Registry,
    commands: &[u64; 4],
    pid: &[u64; 4],
) -> (outcome: Outcome)
    requires
        old(registry).wf(),
    ensures
        final(registry).wf(),
        outcome == outcome_of(old(registry)@, *commands, *pid),
        final(registry)@ == registry_after(old(registry)@, *commands, *pid),
        !(outcome is Dispatched && caller_bound(opcode_of(commands[0]))) ==> *final(registry)
            == *old(registry),
{
    let header = Header::decode(commands[0]);
    let objindex = commands[1];
    if header.opcode == OP_RUN {
        Outcome::Dispatched(Action::Run)
    } else if header.opcode == OP_PLACE {
        let verdict = authorize_owner(registry, pid, header.nonce, objindex);
        let position = decode_position(commands[2]);
        commit(registry, verdict, Action::Place { object: to_full_obj_id(objindex), position })
    } else if header.opcode == OP_UPGRADE {
        let verdict = authorize_owner(registry, pid, header.nonce, objindex);
        commit(registry, verdict, Action::Upgrade { object: to_full_obj_id(objindex) })
    } else if header.opcode == OP_MINT {
        let verdict = authorize_caller(registry, pid, header.nonce);
        let owner = decode_mint_target(commands[2], commands[3]);
        commit(
            registry,
            verdict,
            Action::Mint { object: to_full_obj_id(objindex), feature: header.feature, owner },
        )
    } else if header.opcode == OP_CLAIM {
        Outcome::Dispatched(
            Action::Claim { nonce: header.nonce, object: to_full_obj_id(objindex), claimant: *pid },
        )
    } else if header.opcode == OP_DROP {
        let verdict = authorize_owner(registry, pid, header.nonce, objindex);
        commit(registry, verdict, Action::Drop { object: to_full_obj_id(objindex) })
    } else {
        Outcome::Ignored
    }
}

/// What lasts from one instruction to the next, as far as the engine is concerned.
pub struct State {
    /// The records of all known identities.
    pub registry: Registry,
}

/// What a viewer is shown: the record of one identity, if it has one, beside the game
/// state that the host keeps.
pub struct UserState<'a, G> {
    pub player: Option<Player>,
    pub global: &'a G,
}

impl State {
    /// The state before the first instruction: no identity has a record.
    pub fn initialize() -> (state: State)
        ensures
            state.registry.wf(),
            state.registry@ == Map::<Seq<u64>, PlayerView>::empty(),
    {
        State { registry: Registry::new() }
    }

    /// Puts together what a viewer with the given identity is shown.
    pub fn get_state<'a, G>(&self, pid: Vec<u64>, global: &'a G) -> (shown: UserState<'a, G>)
        requires
            self.registry.wf(),
            pid@.len() == 4,
        ensures
            shown.global == global,
            shown.player is Some <==> self.registry@.contains_key(pid@),
            shown.player matches Some(player) ==> player.wf(),
            shown.player matches Some(player) ==> player@ == self.registry@[pid@],
            shown.player matches Some(player) ==> player@.identity == pid@,
    {
        let identity: [u64; 4] = [pid[0], pid[1], pid[2], pid[3]];
        assert(identity@ =~= pid@);
        UserState { player: self.registry.lookup(&identity), global }
    }
}

/// One instruction, ready to be processed.
pub struct Transaction {
    pub command: [u64; 4],
}

impl Transaction {
    /// Wraps the four words of an instruction. Every four words are an instruction.
    pub fn decode(params: [u64; 4]) -> (transaction: Transaction)
        ensures
            transaction.command == params,
    {
        let command = [params[0], params[1], params[2], params[3]];
        assert(command =~= params);
        Transaction { command }
    }

    /// Processes the instruction for the invoking identity: see [`handle_command`].
    pub fn process(&self, state: &mut State, pid: &[u64; 4]) -> (outcome: Outcome)
        requires
            old(state).registry.wf(),
        ensures
            final(state).registry.wf(),
            outcome == outcome_of(old(state).registry@, self.command, *pid),
            final(state).registry@ == registry_after(old(state).registry@, self.command, *pid),
            !(outcome is Dispatched && caller_bound(opcode_of(self.command[0]))) ==> *final(state)
                == *old(state),
    {
        handle_command(&mut state.registry, &self.command, pid)
    }
}

} // verus!

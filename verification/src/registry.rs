//! The identity registry: at most one player record for each identity.

use crate::player::{same_identity, Player, PlayerView};
use vstd::prelude::*;

verus! {

/// The records of all known identities.
pub struct Registry {
    players: Vec<Player>,
}

impl View for Registry {
    type V = Map<Seq<u64>, PlayerView>;

    /// The registry as a map from identity to record.
    closed spec fn view(&self) -> Map<Seq<u64>, PlayerView> {
        Map::new(
            |identity: Seq<u64>| self.holds(identity),
            |identity: Seq<u64>| self.players@[self.slot(identity)]@,
        )
    }
}

impl Registry {
    spec fn files(&self, i: int, identity: Seq<u64>) -> bool {
        0 <= i < self.players@.len() && self.players@[i]@.identity == identity
    }

    spec fn holds(&self, identity: Seq<u64>) -> bool {
        exists|i: int| self.files(i, identity)
    }

    spec fn slot(&self, identity: Seq<u64>) -> int {
        choose|i: int| self.files(i, identity)
    }

    /// Well-formedness: every record is well formed, and no identity has two records.
    /// Every registry that this module hands out is well formed, and every operation
    /// keeps it so.
    pub closed spec fn wf(&self) -> bool {
        &&& forall|i: int| 0 <= i < self.players@.len() ==> (#[trigger] self.players@[i]).wf()
        &&& forall|i: int, j: int, identity: Seq<u64>|
            #[trigger] self.files(i, identity) && #[trigger] self.files(j, identity) ==> i == j
    }

    proof fn lemma_record_at(&self, i: int)
        requires
            self.wf(),
            0 <= i < self.players@.len(),
        ensures
            self@.contains_key(self.players@[i]@.identity),
            self@[self.players@[i]@.identity] == self.players@[i]@,
    {
        let identity = self.players@[i]@.identity;
        assert(self.files(i, identity));
        assert(self.files(self.slot(identity), identity));
    }

    /// What `store` has done once `player` stands at index `at`: in the place of the
    /// record of its identity, or behind all records where the identity had none.
    proof fn lemma_stored(before: Registry, after: Registry, at: int, player: Player)
        requires
            before.wf(),
            player.wf(),
            0 <= at <= before.players@.len(),
            after.players@ == if at < before.players@.len() {
                before.players@.update(at, player)
            } else {
                before.players@.push(player)
            },
            at < before.players@.len() ==> before.files(at, player@.identity),
            forall|j: int| j != at ==> !before.files(j, player@.identity),
        ensures
            after.wf(),
            after@ == before@.insert(player@.identity, player@),
    {
        let key = player@.identity;
        assert forall|j: int, identity: Seq<u64>| j != at implies after.files(j, identity)
            == before.files(j, identity) by {}
        assert(after.files(at, key));
        assert forall|i: int| 0 <= i < after.players@.len() implies (
        #[trigger] after.players@[i]).wf() by {
            if i != at {
                assert(before.players@[i].wf());
            }
        }
        assert forall|i: int, j: int, identity: Seq<u64>|
            #[trigger] after.files(i, identity) && #[trigger] after.files(
                j,
                identity,
            ) implies i == j by {
            if i != at && j != at {
                assert(before.files(i, identity) && before.files(j, identity));
            }
        }
        assert forall|identity: Seq<u64>|
            after@.contains_key(identity) <==> (identity == key || before@.contains_key(
                identity,
            )) by {
            if after@.contains_key(identity) && identity != key {
                assert(before.files(after.slot(identity), identity));
            }
            if before@.contains_key(identity) && identity != key {
                assert(after.files(before.slot(identity), identity));
            }
        }
        assert forall|identity: Seq<u64>| after@.contains_key(identity) implies after@[identity]
            == before@.insert(key, player@)[identity] by {
            let i: int = after.slot(identity);
            after.lemma_record_at(i);
            if identity != key {
                before.lemma_record_at(i);
            }
        }
        assert(after@ =~= before@.insert(key, player@));
    }

    /// Every record is filed under its own identity.
    pub proof fn lemma_keys_are_identities(&self)
        requires
            self.wf(),
        ensures
            forall|identity: Seq<u64>| #[trigger]
                self@.contains_key(identity) ==> self@[identity].identity == identity,
    {
        assert forall|identity: Seq<u64>| #[trigger]
            self@.contains_key(identity) implies self@[identity].identity == identity by {
            self.lemma_record_at(self.slot(identity));
        }
    }

    /// A registry without records.
    pub fn new() -> (registry: Registry)
        ensures
            registry.wf(),
            registry@ == Map::<Seq<u64>, PlayerView>::empty(),
    {
        let registry = Registry { players: Vec::new() };
        assert(registry@ =~= Map::<Seq<u64>, PlayerView>::empty());
        registry
    }

    /// The index of the record of an identity, if it has one.
    fn position(&self, identity: &[u64; 4]) -> (found: Option<usize>)
        ensures
            found matches Some(i) ==> self.files(i as int, identity@),
            found is None ==> !self.holds(identity@),
    {
        let mut i: usize = 0;
        while i < self.players.len()
            invariant
                i <= self.players@.len(),
                forall|j: int| 0 <= j < i ==> !self.files(j, identity@),
            decreases self.players@.len() - i,
        {
            let here = self.players[i].identity();
            if same_identity(&here, identity) {
                return Some(i);
            }
            i += 1;
        }
        None
    }

    /// Fetches a copy of the record stored for an identity. An identity without a
    /// record gives `None`, which is not the same as a fresh record.
    pub fn lookup(&self, identity: &[u64; 4]) -> (found: Option<Player>)
        requires
            self.wf(),
        ensures
            found is Some <==> self@.contains_key(identity@),
            found matches Some(player) ==> player.wf(),
            found matches Some(player) ==> player@ == self@[identity@],
            found matches Some(player) ==> player@.identity == identity@,
    {
        match self.position(identity) {
            Some(i) => {
                proof {
                    self.lemma_record_at(i as int);
                }
                Some(self.players[i].clone())
            },
            None => None,
        }
    }

    /// Commits a record: it takes the place of the record stored for its identity, or
    /// becomes that identity's record if there was none. No other record changes.
    pub fn store(&mut self, player: Player)
        requires
            old(self).wf(),
            player.wf(),
        ensures
            final(self).wf(),
            final(self)@ == old(self)@.insert(player@.identity, player@),
    {
        let identity = player.identity();
        match self.position(&identity) {
            Some(i) => {
                self.players.set(i, player);
                proof {
                    Self::lemma_stored(*old(self), *self, i as int, player);
                }
            },
            None => {
                self.players.push(player);
                proof {
                    Self::lemma_stored(*old(self), *self, old(self).players@.len() as int, player);
                }
            },
        }
    }
}

} // verus!

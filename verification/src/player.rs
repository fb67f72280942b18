//! Player records: an identity, its replay counter and the handles it owns.

use vstd::prelude::*;

verus! {

/// What a player record holds, as plain mathematics.
pub struct PlayerView {
    /// The four words of the identity.
    pub identity: Seq<u64>,
    /// The last nonce that was accepted for this identity.
    pub nonce: u64,
    /// The handles of the objects that this identity owns.
    pub owned: Set<u64>,
}

/// One identity's record.
#[derive(Debug, Eq)]
pub struct Player {
    identity: [u64; 4],
    nonce: u64,
    owned: Vec<u64>,
}

impl View for Player {
    type V = PlayerView;

    closed spec fn view(&self) -> PlayerView {
        PlayerView {
            identity: self.identity@,
            nonce: self.nonce,
            owned: self.owned@.to_set(),
        }
    }
}

/// Whether two identities are the same four words.
pub fn same_identity(left: &[u64; 4], right: &[u64; 4]) -> (same: bool)
    ensures
        same == (left@ == right@),
{
    let same = left[0] == right[0] && left[1] == right[1] && left[2] == right[2] && left[3]
        == right[3];
    proof {
        if same {
            assert(left@ =~= right@);
        }
    }
    same
}

/// Taking one entry out of a list without repetitions takes its value out of the set
/// of the list's values, and leaves a list without repetitions.
proof fn lemma_remove_from_set(list: Seq<u64>, at: int)
    requires
        list.no_duplicates(),
        0 <= at < list.len(),
    ensures
        list.remove(at).no_duplicates(),
        list.remove(at).to_set() == list.to_set().remove(list[at]),
{
    let rest = list.remove(at);
    let back = |j: int| if j < at { j } else { j + 1 };
    assert forall|j: int| 0 <= j < rest.len() implies rest[j] == list[back(j)] by {}
    assert forall|value: u64| rest.contains(value) <==> (list.contains(value) && value
        != list[at]) by {
        if rest.contains(value) {
            let j: int = choose|j: int| 0 <= j < rest.len() && rest[j] == value;
            assert(list[back(j)] == value);
        }
        if list.contains(value) && value != list[at] {
            let j: int = choose|j: int| 0 <= j < list.len() && list[j] == value;
            assert(rest[if j < at { j } else { j - 1 }] == value);
        }
    }
    assert(rest.to_set() =~= list.to_set().remove(list[at]));
}

impl PartialEq for Player {
    /// Two records are equal when they hold the same identity, the same nonce and the
    /// same set of handles, in whatever order the handles were granted.
    fn eq(&self, other: &Player) -> (same: bool) {
        let same = same_identity(&self.identity, &other.identity) && self.nonce == other.nonce
            && self.covers(other) && other.covers(self);
        proof {
            if same {
                assert(self@.owned =~= other@.owned);
            }
        }
        same
    }
}

impl vstd::std_specs::cmp::PartialEqSpecImpl for Player {
    open spec fn obeys_eq_spec() -> bool {
        true
    }

    open spec fn eq_spec(&self, other: &Player) -> bool {
        self@ == other@
    }
}

impl Clone for Player {
    /// A copy that holds what the record holds.
    fn clone(&self) -> (copy: Player)
        ensures
            copy@ == self@,
            self.wf() ==> copy.wf(),
    {
        let owned = self.owned.clone();
        assert(owned@ =~= self.owned@);
        Player { identity: self.identity, nonce: self.nonce, owned }
    }
}

impl Player {
    /// Well-formedness: no handle is listed twice. Every record that this module hands
    /// out is well formed, and every operation keeps it so.
    pub closed spec fn wf(&self) -> bool {
        self.owned@.no_duplicates()
    }

    /// A fresh record: nonce zero, nothing owned.
    pub fn new(identity: [u64; 4]) -> (player: Player)
        ensures
            player.wf(),
            player@.identity == identity@,
            player@.nonce == 0,
            player@.owned == Set::<u64>::empty(),
    {
        let player = Player { identity, nonce: 0, owned: Vec::new() };
        assert(player.owned@.to_set() =~= Set::<u64>::empty());
        player
    }

    /// The identity that this record belongs to.
    pub fn identity(&self) -> (identity: [u64; 4])
        ensures
            identity@ == self@.identity,
    {
        self.identity
    }

    /// The last nonce that was accepted.
    pub fn nonce(&self) -> (nonce: u64)
        ensures
            nonce == self@.nonce,
    {
        self.nonce
    }

    /// Where the handle is listed, if it is.
    fn find(&self, handle: u64) -> (found: Option<usize>)
        ensures
            found matches Some(i) ==> i < self.owned@.len() && self.owned@[i as int] == handle,
            found is None ==> !self.owned@.contains(handle),
    {
        let mut i: usize = 0;
        while i < self.owned.len()
            invariant
                i <= self.owned@.len(),
                forall|j: int| 0 <= j < i ==> self.owned@[j] != handle,
            decreases self.owned@.len() - i,
        {
            if self.owned[i] == handle {
                return Some(i);
            }
            i += 1;
        }
        None
    }

    /// Whether the record lists every handle that the other record lists.
    fn covers(&self, other: &Player) -> (all: bool)
        ensures
            all == other@.owned.subset_of(self@.owned),
    {
        let mut i: usize = 0;
        while i < other.owned.len()
            invariant
                i <= other.owned@.len(),
                forall|j: int| 0 <= j < i ==> self.owned@.contains(other.owned@[j]),
            decreases other.owned@.len() - i,
        {
            if self.find(other.owned[i]).is_none() {
                assert(other@.owned.contains(other.owned@[i as int]));
                return false;
            }
            i += 1;
        }
        true
    }

    /// Whether the record lists the handle among its owned objects.
    pub fn owns(&self, handle: u64) -> (found: bool)
        ensures
            found == self@.owned.contains(handle),
    {
        self.find(handle).is_some()
    }

    /// The replay check. A nonce is accepted when it is greater than the stored one, and
    /// then takes its place; any other nonce leaves the record as it was.
    pub fn check_and_increment_nonce(&mut self, nonce: u64) -> (accepted: bool)
        requires
            old(self).wf(),
        ensures
            final(self).wf(),
            accepted == (nonce > old(self)@.nonce),
            accepted ==> final(self)@ == (PlayerView { nonce: nonce, ..old(self)@ }),
            !accepted ==> final(self)@ == old(self)@,
    {
        if nonce > self.nonce {
            self.nonce = nonce;
            true
        } else {
            false
        }
    }

    /// Adds a handle to the owned objects. Granting an owned handle changes nothing.
    pub fn grant(&mut self, handle: u64)
        requires
            old(self).wf(),
        ensures
            final(self).wf(),
            final(self)@ == (PlayerView { owned: old(self)@.owned.insert(handle), ..old(self)@ }),
    {
        if self.find(handle).is_none() {
            self.owned.push(handle);
            proof {
                old(self).owned@.lemma_push_to_set_commute(handle);
            }
        } else {
            assert(self@.owned.insert(handle) =~= self@.owned);
        }
    }

    /// Takes a handle out of the owned objects. Revoking a handle that is not owned
    /// changes nothing.
    pub fn revoke(&mut self, handle: u64)
        requires
            old(self).wf(),
        ensures
            final(self).wf(),
            final(self)@ == (PlayerView { owned: old(self)@.owned.remove(handle), ..old(self)@ }),
    {
        match self.find(handle) {
            Some(i) => {
                self.owned.remove(i);
                proof {
                    lemma_remove_from_set(old(self).owned@, i as int);
                }
            },
            None => {
                assert(self@.owned.remove(handle) =~= self@.owned);
            },
        }
    }

    /// The owned handles, each once, in no particular order.
    pub fn owned_handles(&self) -> (handles: Vec<u64>)
        requires
            self.wf(),
        ensures
            handles@.to_set() == self@.owned,
            handles@.no_duplicates(),
    {
        let handles = self.owned.clone();
        assert(handles@ =~= self.owned@);
        handles
    }
}

} // verus!

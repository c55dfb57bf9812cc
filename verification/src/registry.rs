//! The proposal registry: one mapping from 64-bit keys to proposals,
//! with the five operations exposed over it.
//!
//! Every mutating operation is atomic — it either fully succeeds or
//! leaves the prior state unchanged — and validation and authorization
//! run strictly before any mutation. The check order of the mutating
//! operations is fixed: input validation, then existence, then
//! authorization; for `vote`, existence, then the already-voted check,
//! then the lifecycle check.

use crate::proposal::{
    check_description, description_fits, voted_contains, Choice, CreateProposal, Identity,
    Proposal, VoteError,
};
use std::collections::HashMap;
use vstd::prelude::*;

verus! {

broadcast use vstd::std_specs::hash::group_hash_axioms;

/// A record as `create_proposal` stores it: the input's description and
/// lifecycle flag, zero counters, no voters, the creator as owner.
pub open spec fn fresh_record(p: Proposal, input: CreateProposal, caller: Identity) -> bool {
    &&& p.description@ == input.description@
    &&& p.approve == 0
    &&& p.reject == 0
    &&& p.pass == 0
    &&& p.active == input.active
    &&& p.voted@ == Seq::<Identity>::empty()
    &&& p.owner == caller
}

/// `p` is `prev` with the caller-settable fields replaced by the input
/// and the vote state and ownership kept.
pub open spec fn edited_record(p: Proposal, prev: Proposal, input: CreateProposal) -> bool {
    &&& p.description@ == input.description@
    &&& p.active == input.active
    &&& p.approve == prev.approve
    &&& p.reject == prev.reject
    &&& p.pass == prev.pass
    &&& p.voted@ == prev.voted@
    &&& p.owner == prev.owner
}

/// `p` is `prev` closed: `active` is false and every other field is kept.
pub open spec fn ended_record(p: Proposal, prev: Proposal) -> bool {
    &&& p.description@ == prev.description@
    &&& !p.active
    &&& p.approve == prev.approve
    &&& p.reject == prev.reject
    &&& p.pass == prev.pass
    &&& p.voted@ == prev.voted@
    &&& p.owner == prev.owner
}

/// `p` is `prev` after one accepted vote by `caller`: the chosen
/// counter is one higher, the other two are kept, the caller is
/// appended to the voter set, and description, lifecycle flag and
/// owner are kept.
pub open spec fn voted_record(p: Proposal, prev: Proposal, choice: Choice, caller: Identity) -> bool {
    &&& p.description@ == prev.description@
    &&& p.active == prev.active
    &&& p.owner == prev.owner
    &&& p.voted@ == prev.voted@.push(caller)
    &&& p.approve == prev.approve + (if choice == Choice::Approve { 1int } else { 0int })
    &&& p.reject == prev.reject + (if choice == Choice::Reject { 1int } else { 0int })
    &&& p.pass == prev.pass + (if choice == Choice::Pass { 1int } else { 0int })
}

/// The proposal registry. It owns the mapping from key to proposal;
/// the caller's identity is handed in by the host with each operation.
pub struct Registry {
    store: HashMap<u64, Proposal>,
}

impl View for Registry {
    type V = Map<u64, Proposal>;

    closed spec fn view(&self) -> Map<u64, Proposal> {
        self.store@
    }
}

impl Registry {
    /// Every stored proposal is well-formed.
    pub open spec fn inv(self) -> bool {
        forall|k: u64| #[trigger] self@.contains_key(k) ==> self@[k].wf()
    }

    /// An empty registry.
    pub fn new() -> (r: Registry)
        ensures
            r@ == Map::<u64, Proposal>::empty(),
            r.inv(),
    {
        Registry { store: HashMap::new() }
    }

    /// Pure read: the proposal stored at `key`, or absent. Absence is a
    /// normal result, not a failure.
    pub fn get_proposal(&self, key: u64) -> (r: Option<&Proposal>)
        ensures
            match r {
                Some(p) => self@.contains_key(key) && *p == self@[key],
                None => !self@.contains_key(key),
            },
    {
        self.store.get(&key)
    }

    /// Pure read: the number of stored proposals.
    pub fn get_proposal_count(&self) -> (n: u64)
        ensures
            n == self@.len(),
    {
        let n = self.store.len();
        n as u64
    }

    /// Builds a fresh record owned by `caller` and stores it at `key`,
    /// overwriting unconditionally whatever was stored there; returns
    /// the previously stored proposal, or absent. A caller that reuses
    /// a live key destroys the prior proposal together with its vote
    /// history, whoever owned it. An oversized description is rejected
    /// before any state is touched.
    pub fn create_proposal(&mut self, key: u64, input: CreateProposal, caller: Identity) -> (r:
        Result<Option<Proposal>, VoteError>)
        requires
            old(self).inv(),
        ensures
            final(self).inv(),
            match r {
                Ok(prev) => {
                    &&& description_fits(input.description@)
                    &&& fresh_record(final(self)@[key], input, caller)
                    &&& final(self)@ == old(self)@.insert(key, final(self)@[key])
                    &&& final(self)@.len() == if old(self)@.contains_key(key) {
                        old(self)@.len()
                    } else {
                        old(self)@.len() + 1
                    }
                    &&& match prev {
                        Some(p) => old(self)@.contains_key(key) && p == old(self)@[key],
                        None => !old(self)@.contains_key(key),
                    }
                },
                Err(e) => {
                    &&& e == VoteError::InvalidInput
                    &&& !description_fits(input.description@)
                    &&& final(self)@ == old(self)@
                },
            },
    {
        if !check_description(&input.description) {
            return Err(VoteError::InvalidInput);
        }
        let record = Proposal {
            description: input.description,
            approve: 0,
            reject: 0,
            pass: 0,
            active: input.active,
            voted: Vec::new(),
            owner: caller,
        };
        let prev = self.store.insert(key, record);
        proof {
            assert(self@ =~= old(self)@.insert(key, self@[key]));
        }
        Ok(prev)
    }

    /// Replaces the description and the lifecycle flag of the proposal
    /// at `key` with the input, preserving counters, voter set and
    /// owner. Owner-only. An edit may reopen a closed proposal or
    /// close an active one. An oversized description is rejected
    /// before any state is touched.
    pub fn edit_proposal(&mut self, key: u64, input: CreateProposal, caller: Identity) -> (r:
        Result<(), VoteError>)
        requires
            old(self).inv(),
        ensures
            final(self).inv(),
            match r {
                Ok(()) => {
                    &&& description_fits(input.description@)
                    &&& old(self)@.contains_key(key)
                    &&& caller == old(self)@[key].owner
                    &&& edited_record(final(self)@[key], old(self)@[key], input)
                    &&& final(self)@ == old(self)@.insert(key, final(self)@[key])
                },
                Err(e) => {
                    &&& final(self)@ == old(self)@
                    &&& match e {
                        VoteError::InvalidInput => !description_fits(input.description@),
                        VoteError::NoSuchProposal => description_fits(input.description@)
                            && !old(self)@.contains_key(key),
                        VoteError::AccessRejected => description_fits(input.description@)
                            && old(self)@.contains_key(key) && caller != old(self)@[key].owner,
                        _ => false,
                    }
                },
            },
    {
        if !check_description(&input.description) {
            return Err(VoteError::InvalidInput);
        }
        let owner_ok: bool;
        match self.store.get(&key) {
            None => {
                return Err(VoteError::NoSuchProposal);
            },
            Some(p) => {
                owner_ok = caller == p.owner;
            },
        }
        if !owner_ok {
            return Err(VoteError::AccessRejected);
        }
        let mut record = self.store.remove(&key).unwrap();
        record.description = input.description;
        record.active = input.active;
        self.store.insert(key, record);
        proof {
            assert(self@ =~= old(self)@.insert(key, self@[key]));
        }
        Ok(())
    }

    /// Closes the proposal at `key`: sets `active` to false and keeps
    /// every other field. Owner-only. Idempotent — ending an already
    /// closed proposal succeeds and changes nothing further; a closed
    /// proposal never reopens through this operation.
    pub fn end_proposal(&mut self, key: u64, caller: Identity) -> (r: Result<(), VoteError>)
        requires
            old(self).inv(),
        ensures
            final(self).inv(),
            match r {
                Ok(()) => {
                    &&& old(self)@.contains_key(key)
                    &&& caller == old(self)@[key].owner
                    &&& ended_record(final(self)@[key], old(self)@[key])
                    &&& final(self)@ == old(self)@.insert(key, final(self)@[key])
                },
                Err(e) => {
                    &&& final(self)@ == old(self)@
                    &&& match e {
                        VoteError::NoSuchProposal => !old(self)@.contains_key(key),
                        VoteError::AccessRejected => old(self)@.contains_key(key) && caller
                            != old(self)@[key].owner,
                        _ => false,
                    }
                },
            },
    {
        let owner_ok: bool;
        match self.store.get(&key) {
            None => {
                return Err(VoteError::NoSuchProposal);
            },
            Some(p) => {
                owner_ok = caller == p.owner;
            },
        }
        if !owner_ok {
            return Err(VoteError::AccessRejected);
        }
        let mut record = self.store.remove(&key).unwrap();
        record.active = false;
        self.store.insert(key, record);
        proof {
            assert(self@ =~= old(self)@.insert(key, self@[key]));
        }
        Ok(())
    }

    /// Records one vote by `caller` on the proposal at `key`: exactly
    /// one counter is incremented according to `choice` and the caller
    /// is appended to the voter set, together or not at all. A caller
    /// may vote at most once per proposal — the already-voted check
    /// comes before the lifecycle check — and only while the proposal
    /// is active.
    pub fn vote(&mut self, key: u64, choice: Choice, caller: Identity) -> (r: Result<
        (),
        VoteError,
    >)
        requires
            old(self).inv(),
        ensures
            final(self).inv(),
            match r {
                Ok(()) => {
                    &&& old(self)@.contains_key(key)
                    &&& !old(self)@[key].has_voted(caller)
                    &&& old(self)@[key].active
                    &&& voted_record(final(self)@[key], old(self)@[key], choice, caller)
                    &&& final(self)@ == old(self)@.insert(key, final(self)@[key])
                },
                Err(e) => {
                    &&& final(self)@ == old(self)@
                    &&& match e {
                        VoteError::NoSuchProposal => !old(self)@.contains_key(key),
                        VoteError::AlreadyVoted => old(self)@.contains_key(key) && old(
                            self,
                        )@[key].has_voted(caller),
                        VoteError::NotActive => old(self)@.contains_key(key) && !old(
                            self,
                        )@[key].has_voted(caller) && !old(self)@[key].active,
                        _ => false,
                    }
                },
            },
    {
        let already: bool;
        let is_active: bool;
        match self.store.get(&key) {
            None => {
                return Err(VoteError::NoSuchProposal);
            },
            Some(p) => {
                already = voted_contains(&p.voted, caller);
                is_active = p.active;
            },
        }
        if already {
            return Err(VoteError::AlreadyVoted);
        }
        if !is_active {
            return Err(VoteError::NotActive);
        }
        let mut record = self.store.remove(&key).unwrap();
        let ghost prev = old(self)@[key];
        record.voted.push(caller);
        let n = record.voted.len();
        proof {
            // The counters sum to the prior voter count, which is below
            // the vector length bound, so the increment cannot overflow.
            assert(record.approve + record.reject + record.pass == n - 1);
            // The caller was absent from the voter set, so the extended
            // set still has no duplicate identity.
            assert(record.voted@.no_duplicates()) by {
                let s = record.voted@;
                assert forall|i: int, j: int|
                    0 <= i < s.len() && 0 <= j < s.len() && i != j implies s[i] != s[j] by {
                    if i == s.len() - 1 && 0 <= j < s.len() - 1 {
                        assert(prev.voted@[j] == s[j]);
                        if s[i] == s[j] {
                            assert(prev.voted@.contains(caller));
                        }
                    } else if j == s.len() - 1 && 0 <= i < s.len() - 1 {
                        assert(prev.voted@[i] == s[i]);
                        if s[i] == s[j] {
                            assert(prev.voted@.contains(caller));
                        }
                    } else {
                        assert(prev.voted@[i] == s[i] && prev.voted@[j] == s[j]);
                    }
                }
            }
        }
        match choice {
            Choice::Approve => {
                record.approve = record.approve + 1;
            },
            Choice::Reject => {
                record.reject = record.reject + 1;
            },
            Choice::Pass => {
                record.pass = record.pass + 1;
            },
        }
        self.store.insert(key, record);
        proof {
            assert(self@ =~= old(self)@.insert(key, self@[key]));
        }
        Ok(())
    }
}

} // verus!

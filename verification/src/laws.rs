//! The registry's laws: properties that relate several operations,
//! stated over the map model and the record-transition predicates that
//! the operations' contracts use.

use crate::proposal::{Choice, CreateProposal, Identity, Proposal};
use crate::registry::{edited_record, ended_record, voted_record};
use vstd::prelude::*;

verus! {

/// Law: creating a proposal at a fresh key raises the stored count by
/// exactly one, so a sequence of creations at distinct fresh keys
/// leaves the count equal to the number of keys created.
pub proof fn lemma_count_after_fresh_create(m: Map<u64, Proposal>, key: u64, p: Proposal)
    requires
        m.dom().finite(),
        !m.contains_key(key),
    ensures
        m.insert(key, p).len() == m.len() + 1,
{
}

/// Law: a second creation at the same key overwrites the first — the
/// stored record is the second one — and does not change the count.
pub proof fn lemma_create_overwrites(m: Map<u64, Proposal>, key: u64, p1: Proposal, p2: Proposal)
    requires
        m.dom().finite(),
    ensures
        m.insert(key, p1).insert(key, p2) == m.insert(key, p2),
        m.insert(key, p1).insert(key, p2).len() == m.insert(key, p1).len(),
        m.insert(key, p1).insert(key, p2)[key] == p2,
{
    assert(m.insert(key, p1).insert(key, p2) =~= m.insert(key, p2));
}

/// Law: an accepted vote preserves the proposal invariant — the
/// counters still sum to the voter-set size and no identity is
/// recorded twice.
pub proof fn lemma_vote_preserves_wf(p: Proposal, prev: Proposal, choice: Choice, caller: Identity)
    requires
        prev.wf(),
        !prev.has_voted(caller),
        voted_record(p, prev, choice, caller),
    ensures
        p.wf(),
{
    let s = p.voted@;
    assert forall|i: int, j: int|
        0 <= i < s.len() && 0 <= j < s.len() && i != j implies s[i] != s[j] by {
        if i == s.len() - 1 && 0 <= j < s.len() - 1 {
            if s[i] == s[j] {
                assert(prev.voted@[j] == caller);
                assert(prev.voted@.contains(caller));
            }
        } else if j == s.len() - 1 && 0 <= i < s.len() - 1 {
            if s[i] == s[j] {
                assert(prev.voted@[i] == caller);
                assert(prev.voted@.contains(caller));
            }
        } else {
            assert(prev.voted@[i] == s[i] && prev.voted@[j] == s[j]);
        }
    }
}

/// Law: an accepted vote records the caller in the voter set, so by
/// `vote`'s contract a second vote by the same identity on the same
/// proposal is refused with `AlreadyVoted` and changes nothing.
pub proof fn lemma_vote_records_caller(p: Proposal, prev: Proposal, choice: Choice, caller: Identity)
    requires
        voted_record(p, prev, choice, caller),
    ensures
        p.has_voted(caller),
{
    assert(p.voted@[p.voted@.len() - 1] == caller);
}

/// Law: ending a proposal closes it and moves no counter and no voter,
/// so by `vote`'s contract any later vote by an identity not yet in
/// the voter set is refused with `NotActive` and changes nothing.
pub proof fn lemma_end_closes(p: Proposal, prev: Proposal)
    requires
        ended_record(p, prev),
    ensures
        !p.active,
        p.approve == prev.approve,
        p.reject == prev.reject,
        p.pass == prev.pass,
        p.voted@ == prev.voted@,
{
}

/// Law: ownership is immutable — an edit, an end and a vote each keep
/// the stored owner; `edit_proposal` and `end_proposal` refuse any
/// caller other than the owner with `AccessRejected`, leaving the
/// registry unchanged (stated in their contracts).
pub proof fn lemma_owner_immutable(
    p: Proposal,
    prev: Proposal,
    input: CreateProposal,
    choice: Choice,
    caller: Identity,
)
    requires
        edited_record(p, prev, input) || ended_record(p, prev) || voted_record(
            p,
            prev,
            choice,
            caller,
        ),
    ensures
        p.owner == prev.owner,
{
}

} // verus!

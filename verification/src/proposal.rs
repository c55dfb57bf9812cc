//! The proposal record and the plain values that the registry's
//! operations exchange with their callers.

use vstd::prelude::*;

verus! {

/// The caller identity: an opaque token supplied by the hosting
/// environment with each operation. The registry never constructs or
/// validates identities; it only compares them for equality.
#[derive(Clone, Copy, PartialEq, Eq, Structural, Debug)]
pub struct Identity {
    pub token: u64,
}

/// The three ways a vote can be cast.
#[derive(Clone, Copy, PartialEq, Eq, Structural, Debug)]
pub enum Choice {
    Approve,
    Reject,
    Pass,
}

/// The typed failures of the registry's mutating operations.
#[derive(Clone, Copy, PartialEq, Eq, Structural, Debug)]
pub enum VoteError {
    /// The caller's identity is already recorded in the proposal's voter set.
    AlreadyVoted,
    /// A vote was attempted against a closed proposal.
    NotActive,
    /// The operation referenced a key with no stored proposal.
    NoSuchProposal,
    /// The caller is not the proposal's owner, for an owner-only operation.
    AccessRejected,
    /// The underlying persistence write failed after validation passed.
    /// The in-memory store never fails, so no operation of this crate
    /// returns it; it is kept so that hosts with a fallible store share
    /// the error surface.
    UpdateError,
    /// The description exceeds the maximum encoded size. Raised before
    /// any state is touched.
    InvalidInput,
}

/// The fields a caller sets when creating or editing a proposal.
#[derive(PartialEq, Eq, Debug)]
pub struct CreateProposal {
    pub description: String,
    pub active: bool,
}

/// One votable record: a description, three outcome counters, an active
/// flag, the set of identities that have voted, and the owner.
#[derive(PartialEq, Eq, Debug)]
pub struct Proposal {
    pub description: String,
    pub approve: u64,
    pub reject: u64,
    pub pass: u64,
    pub active: bool,
    pub voted: Vec<Identity>,
    pub owner: Identity,
}

/// Upper bound, in encoded UTF-8 bytes, on a proposal description.
pub const MAX_DESCRIPTION_BYTES: usize = 5000;

/// Whether a description's UTF-8 encoding fits the configured maximum.
pub open spec fn description_fits(d: Seq<char>) -> bool {
    vstd::utf8::encode_utf8(d).len() <= MAX_DESCRIPTION_BYTES
}

impl Proposal {
    /// Well-formedness: every recorded voter contributed exactly one
    /// increment, no identity is recorded twice, and the description is
    /// within the configured bound.
    pub open spec fn wf(self) -> bool {
        &&& self.approve + self.reject + self.pass == self.voted@.len()
        &&& self.voted@.no_duplicates()
        &&& description_fits(self.description@)
    }

    /// Whether `id` has already voted on this proposal.
    pub open spec fn has_voted(self, id: Identity) -> bool {
        self.voted@.contains(id)
    }
}

/// Checks whether the description's UTF-8 encoding fits the configured
/// maximum.
pub fn check_description(d: &String) -> (ok: bool)
    ensures
        ok == description_fits(d@),
{
    d.as_str().as_bytes().len() <= MAX_DESCRIPTION_BYTES
}

/// Linear scan of the voter set for `id`.
pub fn voted_contains(v: &Vec<Identity>, id: Identity) -> (found: bool)
    ensures
        found == v@.contains(id),
{
    let n = v.len();
    let mut i: usize = 0;
    while i < n
        invariant
            n == v@.len(),
            i <= n,
            forall|j: int| 0 <= j < i ==> v@[j] != id,
        decreases n - i,
    {
        if v[i] == id {
            return true;
        }
        i = i + 1;
    }
    false
}

} // verus!

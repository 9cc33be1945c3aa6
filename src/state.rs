use vstd::prelude::*;

verus! {

/// A 32-byte account address, as the host runtime assigns them.
#[derive(Clone, Copy, Debug, PartialEq, Eq, Hash)]
pub struct Address {
    pub bytes: [u8; 32],
}

impl Address {
    /// Whether the two addresses are the same, byte for byte.
    pub fn same_as(&self, other: &Address) -> (r: bool)
        ensures
            r == (*self == *other),
    {
        let mut i: usize = 0;
        while i < 32
            invariant
                i <= 32,
                forall|k: int| 0 <= k < i ==> self.bytes[k] == other.bytes[k],
            decreases 32 - i,
        {
            if self.bytes[i] != other.bytes[i] {
                return false;
            }
            i += 1;
        }
        assert(self.bytes =~= other.bytes);
        true
    }
}

/// A votable event: a description, a time window and two counters.
#[derive(Clone, Debug, PartialEq, Eq)]
pub struct Poll {
    pub poll_id: u64,
    pub description: String,
    pub poll_start: u64,
    pub poll_end: u64,
    /// Number of candidates registered so far; the next one gets this index.
    pub candidate_amount: u64,
    /// Number of votes recorded so far.
    pub votes_cast: u64,
}

/// An option of a poll, with its tally.
#[derive(Clone, Debug, PartialEq, Eq)]
pub struct Candidate {
    /// Address of the poll the candidate belongs to.
    pub poll: Address,
    pub candidate_name: String,
    pub vote_count: u64,
}

/// The record of one voter in one poll.
#[derive(Clone, Copy, Debug, PartialEq, Eq)]
pub struct Voter {
    pub poll: Address,
    pub voter: Address,
    pub selected_option: u32,
    pub has_voted: bool,
}

/// An account that counts the votes of one owner.
#[derive(Clone, Copy, Debug, PartialEq, Eq)]
pub struct VotingAccount {
    pub owner: Address,
    pub total_votes: u64,
}

} // verus!

use vstd::prelude::*;

use crate::error::CustomError;
use crate::instructions::{
    can_register, cast_vote, initialize_poll, new_poll, next_candidate_index,
    poll_after_registration, register_candidate, CastVote, InitializePoll, RegisterCandidate,
};
use crate::state::{Address, Candidate, Poll, Voter};

verus! {

/// One poll and every record that hangs off it, stored the way the host
/// addresses them: candidates by their index, voter records by the voter.
pub struct PollLedger {
    pub poll_key: Address,
    pub poll: Poll,
    pub candidates: Vec<Candidate>,
    pub voters: Vec<Voter>,
}

fn blank_poll() -> (r: Poll)
    ensures
        r.candidate_amount == 0,
{
    Poll {
        poll_id: 0,
        description: String::new(),
        poll_start: 0,
        poll_end: 0,
        candidate_amount: 0,
        votes_cast: 0,
    }
}

impl PollLedger {
    /// The candidates are exactly the indices below the poll's count, all
    /// under this poll; each stored voter record is under this poll, has
    /// voted for one of them, and belongs to a voter of its own.
    pub open spec fn wf(&self) -> bool {
        &&& self.candidates@.len() == self.poll.candidate_amount
        &&& forall|j: int|
            0 <= j < self.candidates@.len() ==> (#[trigger] self.candidates@[j]).poll
                == self.poll_key
        &&& forall|j: int|
            0 <= j < self.voters@.len() ==> {
                let v = #[trigger] self.voters@[j];
                &&& v.has_voted
                &&& v.poll == self.poll_key
                &&& (v.selected_option as int) < self.candidates@.len()
            }
        &&& forall|j: int, k: int|
            0 <= j < k < self.voters@.len() ==> #[trigger] self.voters@[j].voter
                != #[trigger] self.voters@[k].voter
    }

    /// Whether `user` has a voter record in this poll.
    pub open spec fn has_voted(&self, user: Address) -> bool {
        exists|j: int| 0 <= j < self.voters@.len() && (#[trigger] self.voters@[j]).voter == user
    }

    /// Whether the two ledgers hold the same records.
    pub open spec fn same_records(&self, other: PollLedger) -> bool {
        &&& self.poll_key == other.poll_key
        &&& self.poll == other.poll
        &&& self.candidates@ == other.candidates@
        &&& self.voters@ == other.voters@
    }

    /// Creates the poll at address `poll_key`, with no candidates and no voters.
    /// Fails with `InvalidPollDuration` unless `poll_start < poll_end`.
    pub fn new(
        poll_key: Address,
        poll_id: u64,
        description: String,
        poll_start: u64,
        poll_end: u64,
    ) -> (r: Result<PollLedger, CustomError>)
        ensures
            r is Ok <==> poll_start < poll_end,
            r is Ok ==> {
                let l = r->Ok_0;
                &&& l.wf()
                &&& l.poll_key == poll_key
                &&& l.poll == new_poll(poll_id, description, poll_start, poll_end)
                &&& l.candidates@.len() == 0
                &&& l.voters@.len() == 0
            },
            r is Err ==> r->Err_0 == CustomError::InvalidPollDuration,
    {
        let mut ctx = InitializePoll { poll: blank_poll() };
        match initialize_poll(&mut ctx, poll_id, description, poll_start, poll_end) {
            Ok(()) => Ok(
                PollLedger { poll_key, poll: ctx.poll, candidates: Vec::new(), voters: Vec::new() },
            ),
            Err(e) => Err(e),
        }
    }

    /// Registers a candidate and returns the index it was given.
    /// Fails with `Overflow`, changing nothing, when the count is at its maximum.
    pub fn register(&mut self, candidate_name: String) -> (r: Result<u64, CustomError>)
        requires
            old(self).wf(),
        ensures
            final(self).wf(),
            r is Ok <==> can_register(old(self).poll),
            r is Ok ==> {
                &&& r->Ok_0 == next_candidate_index(old(self).poll)
                &&& final(self).poll == poll_after_registration(old(self).poll)
                &&& final(self).candidates@ == old(self).candidates@.push(
                    Candidate { poll: old(self).poll_key, candidate_name, vote_count: 0 },
                )
                &&& final(self).voters@ == old(self).voters@
                &&& final(self).poll_key == old(self).poll_key
            },
            r is Err ==> r == Err::<u64, CustomError>(CustomError::Overflow) && final(self).same_records(*old(self)),
    {
        let index = self.poll.candidate_amount;
        let mut poll = blank_poll();
        std::mem::swap(&mut poll, &mut self.poll);
        let mut ctx = RegisterCandidate {
            poll_key: self.poll_key,
            poll,
            candidate: Candidate {
                poll: self.poll_key,
                candidate_name: String::new(),
                vote_count: 0,
            },
        };
        let r = register_candidate(&mut ctx, candidate_name);
        self.poll = ctx.poll;
        match r {
            Ok(()) => {
                self.candidates.push(ctx.candidate);
                Ok(index)
            },
            Err(e) => Err(e),
        }
    }

    fn find_voter(&self, user: &Address) -> (r: Option<usize>)
        ensures
            r is Some ==> r->Some_0 < self.voters@.len() && self.voters@[r->Some_0 as int].voter
                == *user,
            r is None ==> forall|j: int|
                0 <= j < self.voters@.len() ==> (#[trigger] self.voters@[j]).voter != *user,
    {
        let mut j: usize = 0;
        while j < self.voters.len()
            invariant
                j <= self.voters@.len(),
                forall|k: int| 0 <= k < j ==> (#[trigger] self.voters@[k]).voter != *user,
            decreases self.voters@.len() - j,
        {
            if self.voters[j].voter.same_as(user) {
                return Some(j);
            }
            j += 1;
        }
        None
    }

    /// Records the vote of `user` for the candidate at `candidate_index`.
    /// Fails with `AlreadyVoted` exactly when `user` has voted in this poll,
    /// else with `Overflow` when the candidate's tally or the poll's count is
    /// at its maximum; a failure changes nothing. A success raises that one
    /// tally and the poll's count by one and stores the user's voter record.
    pub fn vote(&mut self, user: Address, candidate_index: u32) -> (r: Result<(), CustomError>)
        requires
            old(self).wf(),
            (candidate_index as int) < old(self).candidates@.len(),
        ensures
            final(self).wf(),
            r == Err::<(), CustomError>(CustomError::AlreadyVoted) <==> old(self).has_voted(user),
            r is Ok <==> !old(self).has_voted(user) && old(self).candidates@[candidate_index as int].vote_count < u64::MAX && old(self).poll.votes_cast < u64::MAX,
            r is Err && !old(self).has_voted(user) ==> r == Err::<(), CustomError>(
                CustomError::Overflow,
            ),
            r is Err ==> final(self).same_records(*old(self)),
            r is Ok ==> {
                let c = old(self).candidates@[candidate_index as int];
                &&& final(self).candidates@ == old(self).candidates@.update(
                    candidate_index as int,
                    Candidate { vote_count: (c.vote_count + 1) as u64, ..c },
                )
                &&& forall|j: int|
                    0 <= j < old(self).candidates@.len() && j != candidate_index ==> (
                    #[trigger] final(self).candidates@[j]) == old(self).candidates@[j]
                &&& final(self).poll == (Poll {
                    votes_cast: (old(self).poll.votes_cast + 1) as u64,
                    ..old(self).poll
                })
                &&& final(self).voters@ == old(self).voters@.push(
                    Voter {
                        poll: old(self).poll_key,
                        voter: user,
                        selected_option: candidate_index,
                        has_voted: true,
                    },
                )
                &&& final(self).poll_key == old(self).poll_key
            },
            final(self).has_voted(user) <==> old(self).has_voted(user) || r is Ok,
    {
        let ghost before = *self;
        let found = self.find_voter(&user);
        let voter = match found {
            Some(j) => self.voters.remove(j),
            None => Voter { poll: self.poll_key, voter: user, selected_option: 0, has_voted: false },
        };
        proof {
            if let Some(j) = found {
                assert(before.voters@[j as int].voter == user);
            }
        }
        let i = candidate_index as usize;
        let candidate = self.candidates.remove(i);
        let mut poll = blank_poll();
        std::mem::swap(&mut poll, &mut self.poll);
        let mut ctx = CastVote { poll_key: self.poll_key, poll, voter, candidate, user };
        let r = cast_vote(&mut ctx, candidate_index);
        self.poll = ctx.poll;
        self.candidates.insert(i, ctx.candidate);
        match found {
            Some(j) => {
                self.voters.insert(j, ctx.voter);
                assert(self.voters@ =~= before.voters@);
            },
            None => {
                if r.is_ok() {
                    self.voters.push(ctx.voter);
                    assert(self.voters@[before.voters@.len() as int].voter == user);
                } else {
                    assert(self.voters@ =~= before.voters@);
                }
            },
        }
        if r.is_ok() {
            assert(self.candidates@ =~= before.candidates@.update(i as int, ctx.candidate));
        } else {
            assert(self.candidates@ =~= before.candidates@);
        }
        r
    }
}

} // verus!

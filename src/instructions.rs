use vstd::prelude::*;

use crate::error::CustomError;
use crate::state::{Address, Candidate, Poll, Voter};

verus! {

/// The records that poll creation writes: the freshly allocated poll.
pub struct InitializePoll {
    pub poll: Poll,
}

/// The poll as it stands right after a successful creation.
pub open spec fn new_poll(
    poll_id: u64,
    description: String,
    poll_start: u64,
    poll_end: u64,
) -> Poll {
    Poll { poll_id, description, poll_start, poll_end, candidate_amount: 0, votes_cast: 0 }
}

/// Creates a poll with the window `[poll_start, poll_end)` and both counters at zero.
/// Fails with `InvalidPollDuration`, writing nothing, unless `poll_start < poll_end`.
pub fn initialize_poll(
    ctx: &mut InitializePoll,
    poll_id: u64,
    description: String,
    poll_start: u64,
    poll_end: u64,
) -> (r: Result<(), CustomError>)
    ensures
        r is Ok <==> poll_start < poll_end,
        r is Ok ==> final(ctx).poll == new_poll(poll_id, description, poll_start, poll_end),
        r is Err ==> r == Err::<(), CustomError>(CustomError::InvalidPollDuration)
            && final(ctx).poll == old(ctx).poll,
{
    if !(poll_start < poll_end) {
        return Err(CustomError::InvalidPollDuration);
    }
    let poll = &mut ctx.poll;
    poll.poll_id = poll_id;
    poll.description = description;
    poll.poll_start = poll_start;
    poll.poll_end = poll_end;
    poll.candidate_amount = 0;
    poll.votes_cast = 0;
    Ok(())
}

/// The records that candidate registration reads and writes: the poll, its
/// address, and the freshly allocated candidate record.
pub struct RegisterCandidate {
    pub poll_key: Address,
    pub poll: Poll,
    pub candidate: Candidate,
}

/// The index that the next candidate registered on `poll` receives.
pub open spec fn next_candidate_index(poll: Poll) -> u64 {
    poll.candidate_amount
}

/// Whether one more candidate fits on `poll` without the count overflowing.
pub open spec fn can_register(poll: Poll) -> bool {
    poll.candidate_amount < u64::MAX
}

/// The poll after one more candidate has been registered on it.
pub open spec fn poll_after_registration(poll: Poll) -> Poll
    recommends
        can_register(poll),
{
    Poll { candidate_amount: (poll.candidate_amount + 1) as u64, ..poll }
}

/// Registers a candidate named `candidate_name` on the poll, with a tally of
/// zero, at index `next_candidate_index` of the poll as it was, and counts it.
/// Fails with `Overflow`, writing nothing, when the count is at its maximum.
pub fn register_candidate(ctx: &mut RegisterCandidate, candidate_name: String) -> (r: Result<
    (),
    CustomError,
>)
    ensures
        r is Ok <==> can_register(old(ctx).poll),
        r is Ok ==> final(ctx).poll == poll_after_registration(old(ctx).poll)
            && final(ctx).candidate == (Candidate {
                poll: old(ctx).poll_key,
                candidate_name,
                vote_count: 0,
            }),
        r is Err ==> r == Err::<(), CustomError>(CustomError::Overflow) && final(ctx).poll
            == old(ctx).poll && final(ctx).candidate == old(ctx).candidate,
        final(ctx).poll_key == old(ctx).poll_key,
{
    let amount = match ctx.poll.candidate_amount.checked_add(1) {
        Some(n) => n,
        None => return Err(CustomError::Overflow),
    };
    let candidate = &mut ctx.candidate;
    candidate.poll = ctx.poll_key;
    candidate.candidate_name = candidate_name;
    candidate.vote_count = 0;
    ctx.poll.candidate_amount = amount;
    Ok(())
}

/// The records that casting a vote reads and writes: the poll and its address,
/// the voter's record for this poll (fresh, or found from an earlier vote),
/// the chosen candidate, and the voter's own address.
pub struct CastVote {
    pub poll_key: Address,
    pub poll: Poll,
    pub voter: Voter,
    pub candidate: Candidate,
    pub user: Address,
}

/// What casting a vote for the candidate at `candidate_id` does to `ctx`: the
/// records after it, or the error it fails with.
pub open spec fn vote_outcome(ctx: CastVote, candidate_id: u32) -> Result<CastVote, CustomError> {
    if ctx.voter.has_voted {
        Err(CustomError::AlreadyVoted)
    } else if ctx.candidate.vote_count == u64::MAX || ctx.poll.votes_cast == u64::MAX {
        Err(CustomError::Overflow)
    } else {
        Ok(
            CastVote {
                voter: Voter {
                    poll: ctx.poll_key,
                    voter: ctx.user,
                    selected_option: candidate_id,
                    has_voted: true,
                },
                candidate: Candidate {
                    vote_count: (ctx.candidate.vote_count + 1) as u64,
                    ..ctx.candidate
                },
                poll: Poll { votes_cast: (ctx.poll.votes_cast + 1) as u64, ..ctx.poll },
                ..ctx
            },
        )
    }
}

/// Records the user's vote for the candidate at `candidate_id`: the voter
/// record is marked as voted for it, and the candidate's tally and the poll's
/// vote count each go up by one. Fails with `AlreadyVoted` when the voter
/// record shows an earlier vote, else with `Overflow` when either counter is
/// at its maximum; a failure writes nothing.
pub fn cast_vote(ctx: &mut CastVote, candidate_id: u32) -> (r: Result<(), CustomError>)
    ensures
        match vote_outcome(*old(ctx), candidate_id) {
            Ok(after) => r is Ok && *final(ctx) == after,
            Err(e) => r == Err::<(), CustomError>(e) && *final(ctx) == *old(ctx),
        },
{
    if ctx.voter.has_voted {
        return Err(CustomError::AlreadyVoted);
    }
    let vote_count = match ctx.candidate.vote_count.checked_add(1) {
        Some(n) => n,
        None => return Err(CustomError::Overflow),
    };
    let votes_cast = match ctx.poll.votes_cast.checked_add(1) {
        Some(n) => n,
        None => return Err(CustomError::Overflow),
    };
    let voter = &mut ctx.voter;
    voter.poll = ctx.poll_key;
    voter.voter = ctx.user;
    voter.selected_option = candidate_id;
    voter.has_voted = true;
    ctx.candidate.vote_count = vote_count;
    ctx.poll.votes_cast = votes_cast;
    Ok(())
}

} // verus!

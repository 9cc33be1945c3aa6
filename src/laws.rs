use vstd::prelude::*;

use crate::error::CustomError;
use crate::instructions::{
    can_register, next_candidate_index, poll_after_registration, vote_outcome, CastVote,
};
use crate::state::Poll;

verus! {

/// The poll after `n` successive registrations, starting from `poll`.
pub open spec fn poll_after_registrations(poll: Poll, n: nat) -> Poll
    decreases n,
{
    if n == 0 {
        poll
    } else {
        poll_after_registration(poll_after_registrations(poll, (n - 1) as nat))
    }
}

proof fn lemma_registrations_count(poll: Poll, n: nat)
    requires
        poll.candidate_amount + n <= u64::MAX,
    ensures
        poll_after_registrations(poll, n).candidate_amount == poll.candidate_amount + n,
        poll_after_registrations(poll, n) == (Poll {
            candidate_amount: poll_after_registrations(poll, n).candidate_amount,
            ..poll
        }),
    decreases n,
{
    if n > 0 {
        lemma_registrations_count(poll, (n - 1) as nat);
    }
}

/// Registering `n` candidates one after another on a fresh poll succeeds each
/// time, hands out the indices `0, 1, ..., n - 1` in that order (so exactly
/// the set of indices below `n`), and leaves the poll's candidate count at `n`.
pub proof fn lemma_registration_indices(poll: Poll, n: nat)
    requires
        poll.candidate_amount == 0,
        n <= u64::MAX,
    ensures
        forall|k: nat|
            k < n ==> can_register(#[trigger] poll_after_registrations(poll, k))
                && next_candidate_index(poll_after_registrations(poll, k)) == k,
        Set::new(
            |i: u64|
                exists|k: nat|
                    k < n && next_candidate_index(#[trigger] poll_after_registrations(poll, k))
                        == i,
        ) == Set::new(|i: u64| i < n),
        poll_after_registrations(poll, n).candidate_amount == n,
{
    assert forall|k: nat| k < n implies can_register(#[trigger] poll_after_registrations(poll, k))
        && next_candidate_index(poll_after_registrations(poll, k)) == k by {
        lemma_registrations_count(poll, k);
    }
    lemma_registrations_count(poll, n);
    let given = Set::new(
        |i: u64|
            exists|k: nat|
                k < n && next_candidate_index(#[trigger] poll_after_registrations(poll, k)) == i,
    );
    let below = Set::new(|i: u64| i < n);
    assert forall|i: u64| below.contains(i) implies given.contains(i) by {
        let k = i as nat;
        assert(next_candidate_index(poll_after_registrations(poll, k)) == i);
    }
    assert(given =~= below);
}

/// A voter's first vote in a poll succeeds, when neither tally is at its
/// maximum, and marks the voter record as voted for the chosen candidate.
/// Any later vote that finds that record fails with `AlreadyVoted`, whatever
/// the candidate and tallies, and so changes nothing.
pub proof fn lemma_one_vote_per_voter(
    first: CastVote,
    candidate_id: u32,
    later: CastVote,
    later_id: u32,
)
    requires
        !first.voter.has_voted,
        first.candidate.vote_count < u64::MAX,
        first.poll.votes_cast < u64::MAX,
        vote_outcome(first, candidate_id) is Ok ==> later.voter == vote_outcome(
            first,
            candidate_id,
        )->Ok_0.voter,
    ensures
        vote_outcome(first, candidate_id) is Ok,
        vote_outcome(first, candidate_id)->Ok_0.voter.has_voted,
        vote_outcome(first, candidate_id)->Ok_0.voter.selected_option == candidate_id,
        vote_outcome(later, later_id) == Err::<CastVote, CustomError>(CustomError::AlreadyVoted),
{
}

/// A successful vote raises the candidate's tally and the poll's vote count
/// by exactly one, and changes nothing else of the poll or the candidate.
pub proof fn lemma_vote_adds_one(ctx: CastVote, candidate_id: u32)
    requires
        vote_outcome(ctx, candidate_id) is Ok,
    ensures
        ({
            let after = vote_outcome(ctx, candidate_id)->Ok_0;
            &&& after.candidate.vote_count == ctx.candidate.vote_count + 1
            &&& after.poll.votes_cast == ctx.poll.votes_cast + 1
            &&& after.candidate.poll == ctx.candidate.poll
            &&& after.candidate.candidate_name == ctx.candidate.candidate_name
            &&& after.poll == (Poll { votes_cast: after.poll.votes_cast, ..ctx.poll })
            &&& after.poll_key == ctx.poll_key
            &&& after.user == ctx.user
        }),
{
}

} // verus!

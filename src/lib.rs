//! Poll-scoped voting ledger: creating polls, registering candidates under a
//! poll and recording one vote per voter per poll, with checked tallies.
//!
//! Each instruction is a state transition over the records that the host
//! hands in. It either commits the whole new set of records or fails with a
//! `CustomError` and leaves every record as it was.

pub mod error;
pub mod instructions;
pub mod laws;
pub mod ledger;
pub mod state;

pub use error::CustomError;
pub use ledger::PollLedger;
pub use instructions::{
    cast_vote, initialize_poll, register_candidate, CastVote, InitializePoll, RegisterCandidate,
};
pub use state::{Address, Candidate, Poll, Voter, VotingAccount};

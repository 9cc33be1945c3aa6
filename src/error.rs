use vstd::prelude::*;

verus! {

/// The ways an instruction can fail. Every failure leaves the records untouched.
#[derive(Clone, Copy, Debug, PartialEq, Eq, Structural)]
pub enum CustomError {
    /// A poll was to be created whose start is not before its end.
    InvalidPollDuration,
    /// The voter has already voted in this poll.
    AlreadyVoted,
    /// A counter would pass the largest `u64`.
    Overflow,
}

impl CustomError {
    /// The message shown to the user for this error.
    pub fn message(&self) -> (r: &'static str)
        ensures
            r@ == error_message(*self),
    {
        match self {
            CustomError::InvalidPollDuration => "Poll duration is invalid.",
            CustomError::AlreadyVoted => "You have already voted.",
            CustomError::Overflow => "Math operation overflowed.",
        }
    }
}

pub open spec fn error_message(e: CustomError) -> Seq<char> {
    match e {
        CustomError::InvalidPollDuration => "Poll duration is invalid."@,
        CustomError::AlreadyVoted => "You have already voted."@,
        CustomError::Overflow => "Math operation overflowed."@,
    }
}

} // verus!

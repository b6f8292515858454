//! The error kinds of the voting program.
//!
//! Every check of the validation pipeline is local and immediate: the first
//! violated precondition terminates the invocation with one of these kinds.
//! Each kind is mapped to a distinct stable numeric code by an explicit
//! table, decoupled from declaration order.
use vstd::prelude::*;

verus! {

/// A terminal failure of one invocation of the program.
#[derive(Clone, Copy, Debug, PartialEq, Eq, Structural)]
pub enum VoteError {
    /// CreatePoll: `starts_at` lies before the current time.
    InvalidStartingTime,
    /// CreatePoll: `ends_at` does not lie after `starts_at`.
    InvalidEndingTime,
    /// CreatePoll: the voting window is longer than the maximum allowed.
    MaxVotingTimeExceeded,
    /// The account claimed to be the storage-allocation collaborator is not it.
    InvalidSystemProgram,
    /// A supplied address does not match the address derived from the data.
    InvalidPdaAddress,
    /// The invoking identity has not signed the invocation.
    UserSigningNeeded,
    /// The invoking identity's account is not writable.
    UsersAccountMustBeMutable,
    /// A derived-address record account is not writable.
    PDAsAccountMustBeMutable,
    /// A poll title is shorter than the minimum length.
    TitleInvalidLength,
    /// A record account is not owned by this program.
    InvalidAccountOwner,
    /// The poll's voting window has not opened yet.
    VotingNotStarted,
    /// The poll's voting window has already closed.
    VotingEnded,
    /// A record's bytes do not decode, or its leading type tag is wrong.
    MalformedAccountData,
    /// The instruction payload's leading tag names no known operation.
    UnrecognizedInstruction,
    /// The instruction payload's fields do not decode.
    MalformedInstruction,
    /// Fewer accounts were supplied than the operation reads.
    NotEnoughAccounts,
}

/// The stable numeric code of each error kind.
pub open spec fn spec_error_code(e: VoteError) -> u32 {
    match e {
        VoteError::InvalidStartingTime => 0,
        VoteError::InvalidEndingTime => 1,
        VoteError::MaxVotingTimeExceeded => 2,
        VoteError::InvalidSystemProgram => 3,
        VoteError::InvalidPdaAddress => 4,
        VoteError::UserSigningNeeded => 5,
        VoteError::UsersAccountMustBeMutable => 6,
        VoteError::PDAsAccountMustBeMutable => 7,
        VoteError::TitleInvalidLength => 8,
        VoteError::InvalidAccountOwner => 9,
        VoteError::VotingNotStarted => 10,
        VoteError::VotingEnded => 11,
        VoteError::MalformedAccountData => 100,
        VoteError::UnrecognizedInstruction => 101,
        VoteError::MalformedInstruction => 102,
        VoteError::NotEnoughAccounts => 103,
    }
}

/// Maps an error kind to its stable numeric code.
pub fn error_code(e: &VoteError) -> (r: u32)
    ensures
        r == spec_error_code(*e),
{
    match e {
        VoteError::InvalidStartingTime => 0,
        VoteError::InvalidEndingTime => 1,
        VoteError::MaxVotingTimeExceeded => 2,
        VoteError::InvalidSystemProgram => 3,
        VoteError::InvalidPdaAddress => 4,
        VoteError::UserSigningNeeded => 5,
        VoteError::UsersAccountMustBeMutable => 6,
        VoteError::PDAsAccountMustBeMutable => 7,
        VoteError::TitleInvalidLength => 8,
        VoteError::InvalidAccountOwner => 9,
        VoteError::VotingNotStarted => 10,
        VoteError::VotingEnded => 11,
        VoteError::MalformedAccountData => 100,
        VoteError::UnrecognizedInstruction => 101,
        VoteError::MalformedInstruction => 102,
        VoteError::NotEnoughAccounts => 103,
    }
}

} // verus!

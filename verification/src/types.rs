//! The values that voters, votes and outcomes are made of.

use frame_support::traits::ConstU32;
use vstd::prelude::*;

verus! {

/// The identifier of an account.
pub type AccountId = u64;

/// The largest number of voters that the registry holds.
pub const MAX_VOTERS: u32 = 100;

/// The bound of both collections, as the type that `BoundedVec` reads it from.
pub type MaxVoters = ConstU32<MAX_VOTERS>;

/// The choices open to a voter.
#[derive(Clone, Copy, Debug, PartialEq, Eq, Structural)]
pub enum Vote {
    Abstain,
    Aye,
    Nay,
}

/// A voter together with the vote they hold in the current round.
#[derive(Debug, PartialEq, Eq)]
pub struct UserVote<AccountId, Vote> {
    pub who: AccountId,
    pub vote: Vote,
}

impl<AccountId: Copy, Vote: Copy> Clone for UserVote<AccountId, Vote> {
    fn clone(&self) -> (copy: Self)
        ensures
            copy == *self,
    {
        *self
    }
}

impl<AccountId: Copy, Vote: Copy> Copy for UserVote<AccountId, Vote> {

}

/// A record of the round: one account and its choice.
pub type VoteRecord = UserVote<AccountId, Vote>;

/// What an operation tells the host to announce.
#[derive(Clone, Copy, Debug, PartialEq, Eq, Structural)]
pub enum Event {
    /// A round was decided, for (`aye`) or against.
    Outcome { aye: bool },
    /// `who` made or changed a vote.
    NewVote { who: AccountId },
}

/// Why the voting rules turned an operation down.
#[derive(Clone, Copy, Debug, PartialEq, Eq, Structural)]
pub enum Error {
    /// The account is registered already.
    AlreadyVoter,
    /// The registry, or the round, is full.
    TooManyVoters,
    /// The caller is not a registered voter.
    NotVoter,
    /// The votes made so far do not decide the round.
    NotComplete,
    /// Nobody is registered, so there is nothing to decide.
    NoVoters,
}

/// Why an operation failed: the caller was of the wrong class, or the voting
/// rules turned the operation down.
#[derive(Clone, Copy, Debug, PartialEq, Eq, Structural)]
pub enum DispatchError {
    BadOrigin,
    Module(Error),
}

} // verus!

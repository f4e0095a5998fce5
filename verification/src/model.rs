//! The mathematical state of the voting, its three transitions, and the
//! first facts about the notions that they are stated in.

use crate::origin::Origin;
use crate::types::{AccountId, DispatchError, Error, Event, UserVote, Vote, VoteRecord, MAX_VOTERS};
use vstd::prelude::*;

verus! {

/// The accounts of the records of a round, in the order of the records.
pub open spec fn accounts_of(votes: Seq<VoteRecord>) -> Seq<AccountId> {
    votes.map_values(|record: VoteRecord| record.who)
}

/// Where the record of `who` stands in the round, if `who` has one.
pub open spec fn record_index(votes: Seq<VoteRecord>, who: AccountId) -> Option<int> {
    accounts_of(votes).index_of_first(who)
}

/// The number of records of the round that hold `choice`.
pub open spec fn tally(votes: Seq<VoteRecord>, choice: Vote) -> nat {
    votes.filter(|record: VoteRecord| record.vote == choice).len()
}

/// The registry and the round.
pub struct State {
    /// The registered voters, in the order of registration.
    pub voters: Seq<AccountId>,
    /// The votes of the current round, in the order in which the voters first
    /// voted.
    pub votes: Seq<VoteRecord>,
}

/// How an operation ends: the state it leaves, and what it answers.
pub struct Step<T> {
    pub state: State,
    pub result: Result<T, DispatchError>,
}

impl State {
    /// Nobody registered, nothing voted.
    pub open spec fn empty() -> State {
        State { voters: Seq::empty(), votes: Seq::empty() }
    }

    /// The registry holds every account once and at most `MAX_VOTERS` of
    /// them; the round holds at most one record for an account, and only
    /// records of registered accounts.
    pub open spec fn wf(self) -> bool {
        &&& self.voters.no_duplicates()
        &&& self.voters.len() <= MAX_VOTERS
        &&& accounts_of(self.votes).no_duplicates()
        &&& forall|i: int|
            0 <= i < self.votes.len() ==> self.voters.contains(#[trigger] self.votes[i].who)
    }

    /// The registered voters who hold no record in the round.
    pub open spec fn undecided(self) -> int {
        self.voters.len() - self.votes.len()
    }

    /// The operation is turned down: the state stays as it is.
    pub open spec fn refuse<T>(self, error: DispatchError) -> Step<T> {
        Step { state: self, result: Err(error) }
    }

    /// The operation is turned down by the voting rules.
    pub open spec fn reject<T>(self, error: Error) -> Step<T> {
        self.refuse(DispatchError::Module(error))
    }

    /// The same registry with `votes` as its round.
    pub open spec fn with_votes(self, votes: Seq<VoteRecord>) -> State {
        State { voters: self.voters, votes }
    }

    /// Registration: only the privileged caller registers, no account twice,
    /// and none beyond the bound. The new voter comes last.
    pub open spec fn register_voter(self, origin: Origin, who: AccountId) -> Step<()> {
        if origin != Origin::Root {
            self.refuse(DispatchError::BadOrigin)
        } else if self.voters.contains(who) {
            self.reject(Error::AlreadyVoter)
        } else if self.voters.len() >= MAX_VOTERS {
            self.reject(Error::TooManyVoters)
        } else {
            Step { state: State { voters: self.voters.push(who), votes: self.votes }, result: Ok(()) }
        }
    }

    /// Voting: the caller is an authenticated, registered voter. Their record
    /// is replaced where it stands, or, if they have none, added at the end,
    /// which the bound of the round may refuse. The host is told of the vote.
    pub open spec fn make_vote(self, origin: Origin, vote: Vote) -> Step<Event> {
        match origin {
            Origin::Signed(who) => {
                let record = UserVote { who, vote };
                if !self.voters.contains(who) {
                    self.reject(Error::NotVoter)
                } else {
                    match record_index(self.votes, who) {
                        Some(i) => Step {
                            state: self.with_votes(self.votes.update(i, record)),
                            result: Ok(Event::NewVote { who }),
                        },
                        None => if self.votes.len() < MAX_VOTERS {
                            Step {
                                state: self.with_votes(self.votes.push(record)),
                                result: Ok(Event::NewVote { who }),
                            }
                        } else {
                            self.reject(Error::TooManyVoters)
                        },
                    }
                }
            },
            _ => self.refuse(DispatchError::BadOrigin),
        }
    }

    /// Resolution: any authenticated caller may ask. The round is decided for
    /// aye once the ayes outnumber the nays and the undecided together, and
    /// against once the nays are at least the ayes and the undecided together;
    /// an even split with nobody undecided is therefore decided against.
    /// Deciding empties the round and tells the host the outcome.
    pub open spec fn close_vote(self, origin: Origin) -> Step<Event> {
        let ayes = tally(self.votes, Vote::Aye);
        let nays = tally(self.votes, Vote::Nay);
        if !(origin is Signed) {
            self.refuse(DispatchError::BadOrigin)
        } else if self.voters.len() == 0 {
            self.reject(Error::NoVoters)
        } else if ayes > nays + self.undecided() {
            Step { state: self.with_votes(Seq::empty()), result: Ok(Event::Outcome { aye: true }) }
        } else if nays >= ayes + self.undecided() {
            Step { state: self.with_votes(Seq::empty()), result: Ok(Event::Outcome { aye: false }) }
        } else {
            self.reject(Error::NotComplete)
        }
    }
}

/// The record index of `who` is the first place in the round where a record
/// of `who` stands; there is none exactly when no record is theirs.
pub proof fn record_index_is_first(votes: Seq<VoteRecord>, who: AccountId)
    ensures
        match record_index(votes, who) {
            Some(i) => {
                &&& 0 <= i < votes.len()
                &&& votes[i].who == who
                &&& forall|j: int| 0 <= j < i ==> votes[j].who != who
            },
            None => forall|j: int| 0 <= j < votes.len() ==> votes[j].who != who,
        },
{
    let accounts = accounts_of(votes);
    accounts.index_of_first_ensures(who);
    match record_index(votes, who) {
        Some(i) => {
            assert forall|j: int| 0 <= j < i implies votes[j].who != who by {
                assert(accounts[j] != who);
            }
        },
        None => {
            assert forall|j: int| 0 <= j < votes.len() implies votes[j].who != who by {
                assert(accounts[j] == votes[j].who);
            }
        },
    }
}

/// One more record adds one to the tally of its own choice and nothing to
/// the others.
pub proof fn tally_push(votes: Seq<VoteRecord>, record: VoteRecord, choice: Vote)
    ensures
        tally(votes.push(record), choice) == tally(votes, choice) + if record.vote == choice {
            1nat
        } else {
            0nat
        },
{
    reveal(Seq::filter);
    assert(votes.push(record).drop_last() =~= votes);
}

/// A tally never exceeds the number of records, and the ayes and the nays
/// together do not either.
pub proof fn tally_bounded(votes: Seq<VoteRecord>)
    ensures
        tally(votes, Vote::Aye) + tally(votes, Vote::Nay) <= votes.len(),
    decreases votes.len(),
{
    if votes.len() > 0 {
        tally_bounded(votes.drop_last());
        tally_push(votes.drop_last(), votes.last(), Vote::Aye);
        tally_push(votes.drop_last(), votes.last(), Vote::Nay);
        assert(votes.drop_last().push(votes.last()) =~= votes);
    }
}

/// In a well-formed state no more votes are held than voters are registered:
/// nobody is counted as undecided below zero, and the round keeps within the
/// bound of the registry.
pub proof fn votes_within_voters(s: State)
    requires
        s.wf(),
    ensures
        s.votes.len() <= s.voters.len(),
        s.votes.len() <= MAX_VOTERS,
        s.undecided() >= 0,
{
    let accounts = accounts_of(s.votes);
    accounts.unique_seq_to_set();
    s.voters.unique_seq_to_set();
    assert forall|a: AccountId| accounts.to_set().contains(a) implies s.voters.to_set().contains(
        a,
    ) by {
        let i = accounts.index_of(a);
        assert(s.votes[i].who == a);
    }
    vstd::set_lib::lemma_len_subset(accounts.to_set(), s.voters.to_set());
}

} // verus!

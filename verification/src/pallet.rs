//! The voting itself: the state in its bounded collections, and the three
//! operations on it.

use crate::bounded::{
    vote_items, voter_items, voters_as_vec, voters_new, voters_try_push, votes_as_vec, votes_new,
    votes_set, votes_try_push,
};
use crate::laws::{make_vote_keeps_wf, register_voter_keeps_wf};
use crate::model::{
    accounts_of, record_index, record_index_is_first, tally, tally_bounded, tally_push,
    votes_within_voters, State,
};
use crate::origin::{ensure_root, ensure_signed, Origin};
use crate::types::{
    AccountId, DispatchError, Error, Event, MaxVoters, UserVote, Vote, VoteRecord,
};
use frame_support::BoundedVec;
use vstd::prelude::*;

verus! {

/// The registry of voters and the votes of the current round.
pub struct Pallet {
    voters: BoundedVec<AccountId, MaxVoters>,
    votes: BoundedVec<VoteRecord, MaxVoters>,
}

impl View for Pallet {
    type V = State;

    closed spec fn view(&self) -> State {
        State { voters: voter_items(self.voters), votes: vote_items(self.votes) }
    }
}

/// Whether `who` is among `accounts`.
fn contains(accounts: &Vec<AccountId>, who: AccountId) -> (found: bool)
    ensures
        found == accounts@.contains(who),
{
    let mut i: usize = 0;
    while i < accounts.len()
        invariant
            i <= accounts.len(),
            forall|j: int| 0 <= j < i ==> accounts@[j] != who,
        decreases accounts.len() - i,
    {
        if accounts[i] == who {
            return true;
        }
        i += 1;
    }
    false
}

/// Where the record of `who` stands among `votes`, if there is one.
fn position(votes: &Vec<VoteRecord>, who: AccountId) -> (index: Option<usize>)
    ensures
        match index {
            Some(i) => record_index(votes@, who) == Some(i as int),
            None => record_index(votes@, who) is None,
        },
{
    let mut i: usize = 0;
    while i < votes.len()
        invariant
            i <= votes.len(),
            forall|j: int| 0 <= j < i ==> votes@[j].who != who,
        decreases votes.len() - i,
    {
        if votes[i].who == who {
            proof {
                record_index_is_first(votes@, who);
            }
            return Some(i);
        }
        i += 1;
    }
    proof {
        record_index_is_first(votes@, who);
    }
    None
}

/// The ayes and the nays among `votes`; abstentions count for neither.
fn count_votes(votes: &Vec<VoteRecord>) -> (counts: (usize, usize))
    ensures
        counts.0 == tally(votes@, Vote::Aye),
        counts.1 == tally(votes@, Vote::Nay),
        counts.0 + counts.1 <= votes@.len(),
{
    let mut ayes: usize = 0;
    let mut nays: usize = 0;
    let mut i: usize = 0;
    while i < votes.len()
        invariant
            i <= votes.len(),
            ayes == tally(votes@.take(i as int), Vote::Aye),
            nays == tally(votes@.take(i as int), Vote::Nay),
        decreases votes.len() - i,
    {
        proof {
            tally_bounded(votes@.take(i as int));
            tally_push(votes@.take(i as int), votes@[i as int], Vote::Aye);
            tally_push(votes@.take(i as int), votes@[i as int], Vote::Nay);
            assert(votes@.take(i as int).push(votes@[i as int]) =~= votes@.take(i + 1));
        }
        match votes[i].vote {
            Vote::Aye => ayes += 1,
            Vote::Nay => nays += 1,
            Vote::Abstain => {},
        }
        i += 1;
    }
    proof {
        assert(votes@.take(votes@.len() as int) =~= votes@);
        tally_bounded(votes@);
    }
    (ayes, nays)
}

impl Pallet {
    /// The voting before anyone is registered.
    pub fn new() -> (pallet: Pallet)
        ensures
            pallet@ == State::empty(),
            pallet@.wf(),
    {
        Pallet { voters: voters_new(), votes: votes_new() }
    }

    /// The voting that holds `voters` as its registry and `votes` as its
    /// round, if they make a well-formed state; otherwise nothing.
    pub fn from_parts(voters: &Vec<AccountId>, votes: &Vec<VoteRecord>) -> (r: Option<Pallet>)
        ensures
            match r {
                Some(pallet) => pallet@ == (State { voters: voters@, votes: votes@ })
                    && pallet@.wf(),
                None => !(State { voters: voters@, votes: votes@ }).wf(),
            },
    {
        let ghost target = State { voters: voters@, votes: votes@ };
        let mut pallet = Pallet::new();
        let mut i: usize = 0;
        while i < voters.len()
            invariant
                i <= voters.len(),
                pallet@.wf(),
                pallet@.voters == voters@.take(i as int),
                pallet@.votes == Seq::<VoteRecord>::empty(),
                target == (State { voters: voters@, votes: votes@ }),
            decreases voters.len() - i,
        {
            let ghost before = pallet@;
            if pallet.register_voter(Origin::Root, voters[i]).is_err() {
                proof {
                    // Either an earlier place holds the same account, or the
                    // bound is reached with this account still to come.
                    if before.voters.contains(voters@[i as int]) {
                        let k = before.voters.index_of(voters@[i as int]);
                        assert(voters@[k] == voters@[i as int]);
                    }
                    assert(!target.wf());
                }
                return None;
            }
            proof {
                assert(voters@.take(i + 1) =~= voters@.take(i as int).push(voters@[i as int]));
            }
            i += 1;
        }
        proof {
            assert(voters@.take(voters@.len() as int) =~= voters@);
        }
        let mut j: usize = 0;
        while j < votes.len()
            invariant
                j <= votes.len(),
                pallet@.wf(),
                pallet@.voters == voters@,
                pallet@.votes == votes@.take(j as int),
                target == (State { voters: voters@, votes: votes@ }),
            decreases votes.len() - j,
        {
            let ghost before = pallet@;
            let record = votes[j];
            proof {
                record_index_is_first(before.votes, record.who);
                make_vote_keeps_wf(before, Origin::Signed(record.who), record.vote);
            }
            if position(votes_as_vec(&pallet.votes), record.who).is_some() {
                proof {
                    // An earlier record is of the same account.
                    let k = record_index(before.votes, record.who)->Some_0;
                    assert(accounts_of(votes@)[k] == accounts_of(votes@)[j as int]);
                    assert(!target.wf());
                }
                return None;
            }
            if pallet.make_vote(Origin::Signed(record.who), record.vote).is_err() {
                proof {
                    // The bound never refuses here, so the account is no voter.
                    assert(!voters@.contains(votes@[j as int].who));
                    assert(!target.wf());
                }
                return None;
            }
            proof {
                assert(votes@.take(j + 1) =~= votes@.take(j as int).push(votes@[j as int]));
            }
            j += 1;
        }
        proof {
            assert(votes@.take(votes@.len() as int) =~= votes@);
        }
        Some(pallet)
    }

    /// The registered voters, in the order of registration.
    pub fn voters(&self) -> (voters: &Vec<AccountId>)
        ensures
            voters@ == self@.voters,
    {
        voters_as_vec(&self.voters)
    }

    /// The votes of the current round, in the order in which the voters first
    /// voted.
    pub fn votes(&self) -> (votes: &Vec<VoteRecord>)
        ensures
            votes@ == self@.votes,
    {
        votes_as_vec(&self.votes)
    }

    /// Registers `who` as a voter, for the privileged caller only.
    pub fn register_voter(
        &mut self,
        origin: Origin,
        who: AccountId,
    ) -> (r: Result<(), DispatchError>)
        requires
            old(self)@.wf(),
        ensures
            final(self)@.wf(),
            final(self)@ == old(self)@.register_voter(origin, who).state,
            r == old(self)@.register_voter(origin, who).result,
    {
        if ensure_root(origin).is_err() {
            return Err(DispatchError::BadOrigin);
        }
        if contains(voters_as_vec(&self.voters), who) {
            return Err(DispatchError::Module(Error::AlreadyVoter));
        }
        match voters_try_push(&mut self.voters, who) {
            Ok(()) => {
                proof {
                    register_voter_keeps_wf(old(self)@, origin, who);
                }
                Ok(())
            },
            Err(_) => Err(DispatchError::Module(Error::TooManyVoters)),
        }
    }

    /// Makes or replaces the vote of the authenticated caller, who must be a
    /// registered voter, and says which event to announce.
    pub fn make_vote(&mut self, origin: Origin, vote: Vote) -> (r: Result<Event, DispatchError>)
        requires
            old(self)@.wf(),
        ensures
            final(self)@.wf(),
            final(self)@ == old(self)@.make_vote(origin, vote).state,
            r == old(self)@.make_vote(origin, vote).result,
    {
        let who = match ensure_signed(origin) {
            Ok(who) => who,
            Err(_) => {
                return Err(DispatchError::BadOrigin);
            },
        };
        if !contains(voters_as_vec(&self.voters), who) {
            return Err(DispatchError::Module(Error::NotVoter));
        }
        let maybe_index = position(votes_as_vec(&self.votes), who);
        let user_vote = UserVote { who, vote };
        proof {
            record_index_is_first(old(self)@.votes, who);
            make_vote_keeps_wf(old(self)@, origin, vote);
        }
        match maybe_index {
            Some(index) => {
                votes_set(&mut self.votes, index, user_vote);
            },
            None => {
                if votes_try_push(&mut self.votes, user_vote).is_err() {
                    return Err(DispatchError::Module(Error::TooManyVoters));
                }
            },
        }
        Ok(Event::NewVote { who })
    }

    /// Decides the round if the votes made so far allow it, for any
    /// authenticated caller, and says which outcome to announce. A decision
    /// empties the round; the registry stays.
    pub fn close_vote(&mut self, origin: Origin) -> (r: Result<Event, DispatchError>)
        requires
            old(self)@.wf(),
        ensures
            final(self)@.wf(),
            final(self)@ == old(self)@.close_vote(origin).state,
            r == old(self)@.close_vote(origin).result,
    {
        if ensure_signed(origin).is_err() {
            return Err(DispatchError::BadOrigin);
        }
        let max_voters = voters_as_vec(&self.voters).len();
        if max_voters == 0 {
            return Err(DispatchError::Module(Error::NoVoters));
        }
        let votes = votes_as_vec(&self.votes);
        let votes_len = votes.len();
        proof {
            votes_within_voters(old(self)@);
        }
        let not_voted = max_voters - votes_len;
        let (ayes, nays) = count_votes(votes);
        let aye = if ayes > nays + not_voted {
            true
        } else if nays >= ayes + not_voted {
            false
        } else {
            return Err(DispatchError::Module(Error::NotComplete));
        };
        self.votes = votes_new();
        Ok(Event::Outcome { aye })
    }
}

} // verus!

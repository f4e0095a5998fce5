//! What holds of the three operations, whatever the state: the invariant
//! that they keep, and the laws of registering, voting and deciding.

use crate::model::{
    accounts_of, record_index, record_index_is_first, tally, votes_within_voters, State,
};
use crate::origin::Origin;
use crate::types::{AccountId, DispatchError, Error, Event, UserVote, Vote, VoteRecord, MAX_VOTERS};
use vstd::prelude::*;

verus! {

/// Registration leaves a well-formed state.
pub proof fn register_voter_keeps_wf(s: State, origin: Origin, who: AccountId)
    requires
        s.wf(),
    ensures
        s.register_voter(origin, who).state.wf(),
{
    let next = s.register_voter(origin, who).state;
    if next != s {
        assert forall|i: int| 0 <= i < next.votes.len() implies next.voters.contains(
            #[trigger] next.votes[i].who,
        ) by {
            let k = s.voters.index_of(s.votes[i].who);
            assert(next.voters[k] == s.votes[i].who);
        }
    }
}

/// Voting leaves a well-formed state, and in a well-formed state the bound of
/// the round never turns a registered voter away.
pub proof fn make_vote_keeps_wf(s: State, origin: Origin, vote: Vote)
    requires
        s.wf(),
    ensures
        s.make_vote(origin, vote).state.wf(),
        s.make_vote(origin, vote).result != Err::<Event, DispatchError>(
            DispatchError::Module(Error::TooManyVoters),
        ),
{
    if let Origin::Signed(who) = origin {
        let record = UserVote { who, vote };
        record_index_is_first(s.votes, who);
        if s.voters.contains(who) {
            match record_index(s.votes, who) {
                Some(i) => {
                    let next = s.with_votes(s.votes.update(i, record));
                    assert(accounts_of(next.votes) =~= accounts_of(s.votes));
                    assert forall|j: int| 0 <= j < next.votes.len() implies next.voters.contains(
                        #[trigger] next.votes[j].who,
                    ) by {
                        assert(next.votes[j].who == s.votes[j].who);
                    }
                },
                None => {
                    let next = s.with_votes(s.votes.push(record));
                    assert(accounts_of(next.votes) =~= accounts_of(s.votes).push(who));
                    assert forall|j: int| 0 <= j < next.votes.len() implies next.voters.contains(
                        #[trigger] next.votes[j].who,
                    ) by {
                        if j < s.votes.len() {
                            assert(next.votes[j].who == s.votes[j].who);
                        }
                    }
                    votes_within_voters(next);
                },
            }
        }
    }
}

/// Resolution leaves a well-formed state, whether it decides or not.
pub proof fn close_vote_keeps_wf(s: State, origin: Origin)
    requires
        s.wf(),
    ensures
        s.close_vote(origin).state.wf(),
{
}

/// An operation that fails changes nothing.
pub proof fn failure_changes_nothing(s: State, origin: Origin, who: AccountId, vote: Vote)
    ensures
        s.register_voter(origin, who).result is Err ==> s.register_voter(origin, who).state == s,
        s.make_vote(origin, vote).result is Err ==> s.make_vote(origin, vote).state == s,
        s.close_vote(origin).result is Err ==> s.close_vote(origin).state == s,
{
}

/// No operation removes a voter, and only registration adds one.
pub proof fn registry_only_grows(s: State, origin: Origin, who: AccountId, vote: Vote)
    ensures
        s.voters.is_prefix_of(s.register_voter(origin, who).state.voters),
        s.make_vote(origin, vote).state.voters == s.voters,
        s.close_vote(origin).state.voters == s.voters,
{
}

/// Below the bound, the privileged caller registers any account that is not
/// yet a voter, and the registry grows by exactly that account.
pub proof fn register_new_voter(s: State, who: AccountId)
    requires
        s.voters.len() < MAX_VOTERS,
        !s.voters.contains(who),
    ensures
        s.register_voter(Origin::Root, who).result is Ok,
        s.register_voter(Origin::Root, who).state.voters == s.voters.push(who),
        s.register_voter(Origin::Root, who).state.voters.len() == s.voters.len() + 1,
        s.register_voter(Origin::Root, who).state.votes == s.votes,
{
}

/// Registering an account that is a voter already fails as `AlreadyVoter`,
/// however full the registry is, and changes nothing.
pub proof fn register_known_voter(s: State, who: AccountId)
    requires
        s.voters.contains(who),
    ensures
        s.register_voter(Origin::Root, who).result == Err::<(), DispatchError>(
            DispatchError::Module(Error::AlreadyVoter),
        ),
        s.register_voter(Origin::Root, who).state == s,
{
}

/// At the bound, registering one more account fails as `TooManyVoters` and
/// changes nothing. An account that is a voter already is turned down as
/// such before the bound is looked at.
pub proof fn register_beyond_bound(s: State, who: AccountId)
    requires
        s.voters.len() >= MAX_VOTERS,
        !s.voters.contains(who),
    ensures
        s.register_voter(Origin::Root, who).result == Err::<(), DispatchError>(
            DispatchError::Module(Error::TooManyVoters),
        ),
        s.register_voter(Origin::Root, who).state == s,
{
}

/// Only the privileged caller registers: every other caller is turned down,
/// and nothing changes.
pub proof fn register_needs_root(s: State, origin: Origin, who: AccountId)
    requires
        origin != Origin::Root,
    ensures
        s.register_voter(origin, who).result == Err::<(), DispatchError>(
            DispatchError::BadOrigin,
        ),
        s.register_voter(origin, who).state == s,
{
}

/// A vote by an account that is not registered fails as `NotVoter` and
/// leaves the round as it is.
pub proof fn vote_of_stranger(s: State, who: AccountId, vote: Vote)
    requires
        !s.voters.contains(who),
    ensures
        s.make_vote(Origin::Signed(who), vote).result == Err::<Event, DispatchError>(
            DispatchError::Module(Error::NotVoter),
        ),
        s.make_vote(Origin::Signed(who), vote).state == s,
{
}

/// A registered voter's vote is accepted and announced, and afterwards the
/// round holds exactly one record of theirs, with that choice. The records of
/// the others are the same as before.
pub proof fn vote_is_recorded(s: State, who: AccountId, vote: Vote)
    requires
        s.wf(),
        s.voters.contains(who),
    ensures
        s.make_vote(Origin::Signed(who), vote).result == Ok::<Event, DispatchError>(
            Event::NewVote { who },
        ),
        ({
            let next = s.make_vote(Origin::Signed(who), vote).state;
            &&& record_index(next.votes, who) matches Some(i)
            &&& next.votes[i] == (UserVote { who, vote })
            &&& next.votes.len() == s.votes.len() + if record_index(s.votes, who) is Some {
                0int
            } else {
                1int
            }
            &&& forall|j: int|
                0 <= j < s.votes.len() && s.votes[j].who != who ==> next.votes[j] == s.votes[j]
        }),
{
    let next = s.make_vote(Origin::Signed(who), vote).state;
    let at = match record_index(s.votes, who) {
        Some(i) => i,
        None => s.votes.len() as int,
    };
    make_vote_keeps_wf(s, Origin::Signed(who), vote);
    record_index_is_first(s.votes, who);
    record_index_is_first(next.votes, who);
    assert(accounts_of(next.votes)[at] == who);
}

/// A voter who votes twice holds one record, not two, and it is the second
/// choice that stands: the round is the same as if only the second vote had
/// been made.
pub proof fn last_vote_wins(s: State, who: AccountId, first: Vote, second: Vote)
    requires
        s.wf(),
        s.voters.contains(who),
    ensures
        ({
            let once = s.make_vote(Origin::Signed(who), first).state;
            let twice = once.make_vote(Origin::Signed(who), second);
            &&& twice.result == Ok::<Event, DispatchError>(Event::NewVote { who })
            &&& twice.state.votes.len() == once.votes.len()
            &&& twice.state == s.make_vote(Origin::Signed(who), second).state
        }),
{
    let once = s.make_vote(Origin::Signed(who), first).state;
    let twice = once.make_vote(Origin::Signed(who), second).state;
    let direct = s.make_vote(Origin::Signed(who), second).state;
    let at = match record_index(s.votes, who) {
        Some(i) => i,
        None => s.votes.len() as int,
    };
    make_vote_keeps_wf(s, Origin::Signed(who), first);
    record_index_is_first(s.votes, who);
    assert(record_index(once.votes, who) == Some(at)) by {
        record_index_is_first(once.votes, who);
        assert(accounts_of(once.votes)[at] == who);
    }
    assert(twice.votes =~= direct.votes);
}

/// Only an authenticated caller votes: every other caller is turned down,
/// and nothing changes.
pub proof fn vote_needs_signature(s: State, origin: Origin, vote: Vote)
    requires
        !(origin is Signed),
    ensures
        s.make_vote(origin, vote).result == Err::<Event, DispatchError>(DispatchError::BadOrigin),
        s.make_vote(origin, vote).state == s,
{
}

/// With nobody registered, resolution fails as `NoVoters`.
pub proof fn close_without_voters(s: State, caller: AccountId)
    requires
        s.voters.len() == 0,
    ensures
        s.close_vote(Origin::Signed(caller)).result == Err::<Event, DispatchError>(
            DispatchError::Module(Error::NoVoters),
        ),
        s.close_vote(Origin::Signed(caller)).state == s,
{
}

/// Resolution fails in three ways only: the caller is not authenticated,
/// nobody is registered, or the round is not decided yet. It never fails as
/// registration or voting do.
pub proof fn close_fails_three_ways(s: State, origin: Origin)
    ensures
        s.close_vote(origin).result matches Err(e) ==> {
            ||| e == DispatchError::BadOrigin
            ||| e == DispatchError::Module(Error::NoVoters)
            ||| e == DispatchError::Module(Error::NotComplete)
        },
{
}

/// A round is decided for aye exactly when the ayes outnumber the nays and
/// the undecided together, and against exactly when that fails and the nays
/// are at least the ayes and the undecided together. In particular an even
/// split with nobody undecided is decided against.
pub proof fn decision_rule(s: State, caller: AccountId)
    requires
        s.voters.len() > 0,
    ensures
        ({
            let ayes = tally(s.votes, Vote::Aye);
            let nays = tally(s.votes, Vote::Nay);
            let result = s.close_vote(Origin::Signed(caller)).result;
            &&& result == Ok::<Event, DispatchError>(Event::Outcome { aye: true }) <==> ayes > nays
                + s.undecided()
            &&& result == Ok::<Event, DispatchError>(Event::Outcome { aye: false }) <==> ayes
                <= nays + s.undecided() && nays >= ayes + s.undecided()
            &&& ayes == nays && s.undecided() == 0 ==> result == Ok::<Event, DispatchError>(
                Event::Outcome { aye: false },
            )
        }),
{
}

/// Resolution empties the round when it decides and leaves every record in
/// place when it does not: a round is never emptied in part.
pub proof fn round_is_emptied_or_kept(s: State, origin: Origin)
    ensures
        s.close_vote(origin).result is Ok ==> s.close_vote(origin).state.votes
            == Seq::<VoteRecord>::empty(),
        s.close_vote(origin).result is Err ==> s.close_vote(origin).state.votes == s.votes,
{
}

/// A decision empties the round and keeps the registry, so that the next
/// vote of any voter, whether or not they voted in the round just decided,
/// is the first and only record of a new round.
pub proof fn vote_after_decision(s: State, caller: AccountId, who: AccountId, vote: Vote)
    requires
        s.voters.contains(who),
        s.close_vote(Origin::Signed(caller)).result is Ok,
    ensures
        ({
            let decided = s.close_vote(Origin::Signed(caller)).state;
            let next = decided.make_vote(Origin::Signed(who), vote);
            &&& decided.votes == Seq::<VoteRecord>::empty()
            &&& decided.voters == s.voters
            &&& next.result == Ok::<Event, DispatchError>(Event::NewVote { who })
            &&& next.state.votes == seq![UserVote { who, vote }]
            &&& next.state.voters == s.voters
        }),
{
    let decided = s.close_vote(Origin::Signed(caller)).state;
    record_index_is_first(decided.votes, who);
}

} // verus!

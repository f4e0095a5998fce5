use voting::{
    ensure_root, ensure_signed, AccountId, BadOrigin, DispatchError, Error, Event, Origin, Pallet,
    UserVote, Vote, VoteRecord, MAX_VOTERS,
};

const A: AccountId = 1;
const B: AccountId = 2;
const C: AccountId = 3;

fn rejected<T>(error: Error) -> Result<T, DispatchError> {
    Err(DispatchError::Module(error))
}

fn record(who: AccountId, vote: Vote) -> VoteRecord {
    UserVote { who, vote }
}

fn with_voters(voters: &[AccountId]) -> Pallet {
    let mut pallet = Pallet::new();
    for who in voters {
        assert_eq!(pallet.register_voter(Origin::Root, *who), Ok(()));
    }
    pallet
}

fn cast(pallet: &mut Pallet, who: AccountId, vote: Vote) {
    assert_eq!(pallet.make_vote(Origin::Signed(who), vote), Ok(Event::NewVote { who }));
}

#[test]
fn works_only_if_root() {
    let mut pallet = Pallet::new();
    assert_eq!(pallet.register_voter(Origin::Signed(A), A), Err(DispatchError::BadOrigin));
    assert_eq!(pallet.register_voter(Origin::Unsigned, A), Err(DispatchError::BadOrigin));
    assert!(pallet.voters().is_empty());
    assert_eq!(pallet.register_voter(Origin::Root, A), Ok(()));
    assert_eq!(pallet.voters(), &vec![A]);
    assert!(pallet.votes().is_empty());
}

#[test]
fn cannot_register_too_many() {
    let mut pallet = Pallet::new();
    let mut expected: Vec<AccountId> = Vec::new();
    for who in 0..MAX_VOTERS {
        assert_eq!(pallet.register_voter(Origin::Root, who.into()), Ok(()));
        expected.push(who.into());
    }
    assert_eq!(pallet.voters().len(), 100);
    assert_eq!(pallet.register_voter(Origin::Root, 100), rejected(Error::TooManyVoters));
    assert_eq!(pallet.register_voter(Origin::Root, 1_000_000), rejected(Error::TooManyVoters));
    assert_eq!(pallet.voters(), &expected);
}

#[test]
fn only_voters_can_vote() {
    let mut pallet = with_voters(&[A]);
    assert_eq!(pallet.make_vote(Origin::Signed(B), Vote::Aye), rejected(Error::NotVoter));
    assert!(pallet.votes().is_empty());
    assert_eq!(pallet.make_vote(Origin::Root, Vote::Aye), Err(DispatchError::BadOrigin));
    assert_eq!(pallet.make_vote(Origin::Unsigned, Vote::Aye), Err(DispatchError::BadOrigin));
    assert!(pallet.votes().is_empty());
    assert_eq!(pallet.make_vote(Origin::Signed(A), Vote::Aye), Ok(Event::NewVote { who: A }));
    assert_eq!(pallet.votes(), &vec![record(A, Vote::Aye)]);
}

#[test]
fn can_update_vote() {
    let mut pallet = with_voters(&[A, B]);
    cast(&mut pallet, A, Vote::Aye);
    cast(&mut pallet, B, Vote::Nay);
    assert_eq!(pallet.votes(), &vec![record(A, Vote::Aye), record(B, Vote::Nay)]);
    cast(&mut pallet, A, Vote::Nay);
    assert_eq!(pallet.votes(), &vec![record(A, Vote::Nay), record(B, Vote::Nay)]);
    cast(&mut pallet, B, Vote::Abstain);
    assert_eq!(pallet.votes(), &vec![record(A, Vote::Nay), record(B, Vote::Abstain)]);
    assert_eq!(pallet.voters(), &vec![A, B]);
}

#[test]
fn cannot_close_if_no_voter() {
    let mut pallet = Pallet::new();
    assert_eq!(pallet.close_vote(Origin::Signed(A)), rejected(Error::NoVoters));
    assert!(pallet.voters().is_empty());
    assert!(pallet.votes().is_empty());
}

#[test]
fn cannot_close_if_not_enough_voted() {
    let mut pallet = with_voters(&[A, B, C]);
    assert_eq!(pallet.close_vote(Origin::Signed(A)), rejected(Error::NotComplete));
    cast(&mut pallet, A, Vote::Aye);
    assert_eq!(pallet.close_vote(Origin::Signed(A)), rejected(Error::NotComplete));
    assert_eq!(pallet.votes(), &vec![record(A, Vote::Aye)]);
    cast(&mut pallet, B, Vote::Nay);
    assert_eq!(pallet.close_vote(Origin::Signed(A)), rejected(Error::NotComplete));
    assert_eq!(pallet.votes(), &vec![record(A, Vote::Aye), record(B, Vote::Nay)]);
    assert_eq!(pallet.voters(), &vec![A, B, C]);
}

#[test]
fn two_ayes_of_three_decide_before_the_third_votes() {
    let mut pallet = with_voters(&[A, B, C]);
    cast(&mut pallet, A, Vote::Aye);
    cast(&mut pallet, B, Vote::Aye);
    assert_eq!(pallet.close_vote(Origin::Signed(A)), Ok(Event::Outcome { aye: true }));
    assert!(pallet.votes().is_empty());
    assert_eq!(pallet.voters(), &vec![A, B, C]);
}

#[test]
fn can_close() {
    let mut pallet = with_voters(&[A, B, C]);
    cast(&mut pallet, A, Vote::Aye);
    cast(&mut pallet, B, Vote::Aye);
    cast(&mut pallet, C, Vote::Nay);
    assert_eq!(pallet.close_vote(Origin::Signed(B)), Ok(Event::Outcome { aye: true }));
    assert!(pallet.votes().is_empty());
    assert_eq!(pallet.voters(), &vec![A, B, C]);
}

#[test]
fn close_even_will_fail() {
    let mut pallet = with_voters(&[A, B]);
    cast(&mut pallet, A, Vote::Aye);
    cast(&mut pallet, B, Vote::Nay);
    assert_eq!(pallet.close_vote(Origin::Signed(A)), Ok(Event::Outcome { aye: false }));
    assert!(pallet.votes().is_empty());
    assert_eq!(pallet.voters(), &vec![A, B]);
}

#[test]
fn close_with_abstinence() {
    let mut pallet = with_voters(&[A, B, C]);
    cast(&mut pallet, A, Vote::Aye);
    cast(&mut pallet, B, Vote::Abstain);
    assert_eq!(pallet.close_vote(Origin::Signed(A)), rejected(Error::NotComplete));
    cast(&mut pallet, C, Vote::Abstain);
    assert_eq!(pallet.close_vote(Origin::Signed(A)), Ok(Event::Outcome { aye: true }));
    assert!(pallet.votes().is_empty());
}

#[test]
fn all_abstaining_decides_against() {
    let mut pallet = with_voters(&[A, B]);
    cast(&mut pallet, A, Vote::Abstain);
    assert_eq!(pallet.close_vote(Origin::Signed(A)), rejected(Error::NotComplete));
    cast(&mut pallet, B, Vote::Abstain);
    assert_eq!(pallet.close_vote(Origin::Signed(A)), Ok(Event::Outcome { aye: false }));
}

#[test]
fn single_voter_without_vote_is_not_complete() {
    let mut pallet = with_voters(&[A]);
    assert_eq!(pallet.close_vote(Origin::Signed(A)), rejected(Error::NotComplete));
    assert!(pallet.votes().is_empty());
    assert_eq!(pallet.voters(), &vec![A]);
}

#[test]
fn single_voter_decides_alone() {
    let mut pallet = with_voters(&[A]);
    cast(&mut pallet, A, Vote::Aye);
    assert_eq!(pallet.close_vote(Origin::Signed(A)), Ok(Event::Outcome { aye: true }));
    cast(&mut pallet, A, Vote::Nay);
    assert_eq!(pallet.close_vote(Origin::Signed(A)), Ok(Event::Outcome { aye: false }));
}

#[test]
fn decided_early_while_some_are_undecided() {
    let mut pallet = with_voters(&[A, B, C, 4, 5]);
    cast(&mut pallet, A, Vote::Aye);
    cast(&mut pallet, B, Vote::Aye);
    assert_eq!(pallet.close_vote(Origin::Signed(A)), rejected(Error::NotComplete));
    cast(&mut pallet, C, Vote::Aye);
    assert_eq!(pallet.close_vote(Origin::Signed(A)), Ok(Event::Outcome { aye: true }));

    cast(&mut pallet, A, Vote::Nay);
    cast(&mut pallet, B, Vote::Nay);
    assert_eq!(pallet.close_vote(Origin::Signed(A)), rejected(Error::NotComplete));
    cast(&mut pallet, C, Vote::Nay);
    assert_eq!(pallet.close_vote(Origin::Signed(A)), Ok(Event::Outcome { aye: false }));
}

#[test]
fn nay_needs_only_to_reach_what_aye_could_reach() {
    let mut pallet = with_voters(&[A, B, C, 4]);
    cast(&mut pallet, A, Vote::Nay);
    assert_eq!(pallet.close_vote(Origin::Signed(A)), rejected(Error::NotComplete));
    cast(&mut pallet, B, Vote::Nay);
    assert_eq!(pallet.close_vote(Origin::Signed(A)), Ok(Event::Outcome { aye: false }));

    cast(&mut pallet, A, Vote::Aye);
    cast(&mut pallet, B, Vote::Aye);
    assert_eq!(pallet.close_vote(Origin::Signed(A)), rejected(Error::NotComplete));
    cast(&mut pallet, C, Vote::Aye);
    assert_eq!(pallet.close_vote(Origin::Signed(A)), Ok(Event::Outcome { aye: true }));
}

#[test]
fn anyone_authenticated_may_close() {
    let mut pallet = with_voters(&[A]);
    cast(&mut pallet, A, Vote::Aye);
    assert_eq!(pallet.close_vote(Origin::Root), Err(DispatchError::BadOrigin));
    assert_eq!(pallet.close_vote(Origin::Unsigned), Err(DispatchError::BadOrigin));
    assert_eq!(pallet.votes(), &vec![record(A, Vote::Aye)]);
    assert_eq!(pallet.close_vote(Origin::Signed(77)), Ok(Event::Outcome { aye: true }));
}

#[test]
fn bad_origin_comes_before_no_voters() {
    let mut pallet = Pallet::new();
    assert_eq!(pallet.close_vote(Origin::Root), Err(DispatchError::BadOrigin));
    assert_eq!(pallet.close_vote(Origin::Signed(A)), rejected(Error::NoVoters));
}

#[test]
fn register_grows_by_one_and_refuses_known_accounts() {
    let mut pallet = Pallet::new();
    assert_eq!(pallet.register_voter(Origin::Root, A), Ok(()));
    assert_eq!(pallet.voters().len(), 1);
    assert_eq!(pallet.register_voter(Origin::Root, B), Ok(()));
    assert_eq!(pallet.voters().len(), 2);
    assert_eq!(pallet.register_voter(Origin::Root, A), rejected(Error::AlreadyVoter));
    assert_eq!(pallet.register_voter(Origin::Root, B), rejected(Error::AlreadyVoter));
    assert_eq!(pallet.voters(), &vec![A, B]);
}

#[test]
fn known_account_at_the_bound_is_already_voter() {
    let mut pallet = Pallet::new();
    for who in 0..MAX_VOTERS {
        assert_eq!(pallet.register_voter(Origin::Root, who.into()), Ok(()));
    }
    assert_eq!(pallet.register_voter(Origin::Root, 5), rejected(Error::AlreadyVoter));
    assert_eq!(pallet.register_voter(Origin::Root, 500), rejected(Error::TooManyVoters));
    assert_eq!(pallet.voters().len(), 100);
}

#[test]
fn every_voter_of_a_full_registry_can_vote() {
    let mut pallet = Pallet::new();
    for who in 0..MAX_VOTERS {
        assert_eq!(pallet.register_voter(Origin::Root, who.into()), Ok(()));
    }
    for who in 0..50u64 {
        cast(&mut pallet, who, Vote::Aye);
    }
    assert_eq!(pallet.close_vote(Origin::Signed(0)), rejected(Error::NotComplete));
    cast(&mut pallet, 50, Vote::Aye);
    assert_eq!(pallet.votes().len(), 51);
    assert_eq!(pallet.close_vote(Origin::Signed(0)), Ok(Event::Outcome { aye: true }));
    for who in 0..100u64 {
        cast(&mut pallet, who, Vote::Abstain);
    }
    assert_eq!(pallet.votes().len(), 100);
    cast(&mut pallet, 99, Vote::Nay);
    assert_eq!(pallet.votes().len(), 100);
    assert_eq!(pallet.votes()[99], record(99, Vote::Nay));
    assert_eq!(pallet.close_vote(Origin::Signed(0)), Ok(Event::Outcome { aye: false }));
}

#[test]
fn voting_twice_keeps_one_record_and_the_last_choice() {
    let mut twice = with_voters(&[A, B]);
    cast(&mut twice, B, Vote::Nay);
    cast(&mut twice, A, Vote::Aye);
    let after_first = twice.votes().len();
    cast(&mut twice, A, Vote::Abstain);
    assert_eq!(twice.votes().len(), after_first);

    let mut once = with_voters(&[A, B]);
    cast(&mut once, B, Vote::Nay);
    cast(&mut once, A, Vote::Abstain);
    assert_eq!(twice.votes(), once.votes());
    assert_eq!(twice.votes(), &vec![record(B, Vote::Nay), record(A, Vote::Abstain)]);
}

#[test]
fn vote_after_decision_starts_a_new_round() {
    let mut pallet = with_voters(&[A, B, C]);
    cast(&mut pallet, A, Vote::Aye);
    cast(&mut pallet, B, Vote::Aye);
    assert_eq!(pallet.close_vote(Origin::Signed(A)), Ok(Event::Outcome { aye: true }));
    assert!(pallet.votes().is_empty());
    cast(&mut pallet, B, Vote::Nay);
    assert_eq!(pallet.votes(), &vec![record(B, Vote::Nay)]);
    assert_eq!(pallet.close_vote(Origin::Signed(A)), rejected(Error::NotComplete));
    assert_eq!(pallet.votes(), &vec![record(B, Vote::Nay)]);
}

#[test]
fn new_pallet_is_empty() {
    let pallet = Pallet::new();
    assert!(pallet.voters().is_empty());
    assert!(pallet.votes().is_empty());
    assert_eq!(MAX_VOTERS, 100);
}

#[test]
fn from_parts_restores_a_state() {
    let voters = vec![A, B, C];
    let votes = vec![record(C, Vote::Nay), record(A, Vote::Aye)];
    let mut pallet = Pallet::from_parts(&voters, &votes).expect("well-formed");
    assert_eq!(pallet.voters(), &voters);
    assert_eq!(pallet.votes(), &votes);
    assert_eq!(pallet.close_vote(Origin::Signed(A)), rejected(Error::NotComplete));
    cast(&mut pallet, B, Vote::Nay);
    assert_eq!(pallet.close_vote(Origin::Signed(A)), Ok(Event::Outcome { aye: false }));

    let empty = Pallet::from_parts(&Vec::new(), &Vec::new()).expect("well-formed");
    assert!(empty.voters().is_empty());
    assert!(empty.votes().is_empty());
}

#[test]
fn from_parts_refuses_what_is_not_well_formed() {
    assert!(Pallet::from_parts(&vec![A, B, A], &Vec::new()).is_none());
    assert!(Pallet::from_parts(&vec![A], &vec![record(B, Vote::Aye)]).is_none());
    assert!(Pallet::from_parts(
        &vec![A, B],
        &vec![record(A, Vote::Aye), record(A, Vote::Nay)]
    )
    .is_none());
    let too_many: Vec<AccountId> = (0..101).collect();
    assert!(Pallet::from_parts(&too_many, &Vec::new()).is_none());
    let full: Vec<AccountId> = (0..100).collect();
    assert!(Pallet::from_parts(&full, &Vec::new()).is_some());
}

#[test]
fn origin_checks() {
    assert!(ensure_root(Origin::Root).is_ok());
    assert_eq!(ensure_root(Origin::Signed(A)), Err(BadOrigin));
    assert_eq!(ensure_root(Origin::Unsigned), Err(BadOrigin));
    assert_eq!(ensure_signed(Origin::Signed(B)), Ok(B));
    assert_eq!(ensure_signed(Origin::Root), Err(BadOrigin));
    assert_eq!(ensure_signed(Origin::Unsigned), Err(BadOrigin));
}

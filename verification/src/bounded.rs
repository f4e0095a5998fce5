//! The bounded collections that hold the registry and the round.
//!
//! Both are a `BoundedVec`, which `frame_support` hands on from the crate
//! `bounded-collections`: a vector that refuses to grow beyond a bound that
//! its type carries, here [`MaxVoters`]. The verifier does not look inside
//! it. What a collection holds is named by [`voter_items`] and
//! [`vote_items`], and each function below states, over those names, what
//! one method of `BoundedVec` does. None of these statements is proved: they
//! are read off the collection's source, and everything else in this crate
//! rests on them. There is one set of them for each of the two collections,
//! because a name for what a collection holds is bound to one type.

use crate::types::{AccountId, MaxVoters, VoteRecord, MAX_VOTERS};
use frame_support::traits::ConstU32;
use frame_support::BoundedVec;
use vstd::prelude::*;

verus! {

/// `BoundedVec`, taken as an opaque type.
#[verifier::external_type_specification]
#[verifier::external_body]
#[verifier::reject_recursive_types(T)]
#[verifier::reject_recursive_types(S)]
pub struct ExBoundedVec<T, S>(BoundedVec<T, S>);

/// `ConstU32`, the type that carries a bound; taken as an opaque type.
#[verifier::external_type_specification]
#[verifier::external_body]
pub struct ExConstU32<const N: u32>(ConstU32<N>);

/// The accounts that a bounded registry holds, in the order of the vector
/// inside it.
pub uninterp spec fn voter_items(v: BoundedVec<AccountId, MaxVoters>) -> Seq<AccountId>;

/// The records that a bounded round holds, in the order of the vector inside
/// it.
pub uninterp spec fn vote_items(v: BoundedVec<VoteRecord, MaxVoters>) -> Seq<VoteRecord>;

/// Calls `BoundedVec::new`. Claimed: the new registry holds nothing.
#[verifier::external_body]
pub(crate) fn voters_new() -> (v: BoundedVec<AccountId, MaxVoters>)
    ensures
        voter_items(v) == Seq::<AccountId>::empty(),
{
    BoundedVec::new()
}

/// Calls `deref` of `BoundedVec`, which lends the vector inside it. Claimed:
/// that vector holds the accounts of the registry, in the same order.
#[verifier::external_body]
pub(crate) fn voters_as_vec(v: &BoundedVec<AccountId, MaxVoters>) -> (r: &Vec<AccountId>)
    ensures
        r@ == voter_items(*v),
{
    std::ops::Deref::deref(v)
}

/// Calls `BoundedVec::try_push`. Claimed: while the registry holds fewer than
/// `MAX_VOTERS` accounts, the account is added at the end and the answer is
/// `Ok`; otherwise the registry stays as it is and the account comes back in
/// `Err`.
#[verifier::external_body]
pub(crate) fn voters_try_push(
    v: &mut BoundedVec<AccountId, MaxVoters>,
    who: AccountId,
) -> (r: Result<(), AccountId>)
    ensures
        voter_items(*old(v)).len() < MAX_VOTERS ==> r is Ok && voter_items(*final(v))
            == voter_items(*old(v)).push(who),
        voter_items(*old(v)).len() >= MAX_VOTERS ==> r is Err && r->Err_0 == who
            && voter_items(*final(v)) == voter_items(*old(v)),
{
    v.try_push(who)
}

/// Calls `BoundedVec::new`. Claimed: the new round holds nothing.
#[verifier::external_body]
pub(crate) fn votes_new() -> (v: BoundedVec<VoteRecord, MaxVoters>)
    ensures
        vote_items(v) == Seq::<VoteRecord>::empty(),
{
    BoundedVec::new()
}

/// Calls `deref` of `BoundedVec`, which lends the vector inside it. Claimed:
/// that vector holds the records of the round, in the same order.
#[verifier::external_body]
pub(crate) fn votes_as_vec(v: &BoundedVec<VoteRecord, MaxVoters>) -> (r: &Vec<VoteRecord>)
    ensures
        r@ == vote_items(*v),
{
    std::ops::Deref::deref(v)
}

/// Assigns through `index_mut` of `BoundedVec`, which panics beyond the last
/// record: hence the `requires`. Claimed: the record at `index` is replaced
/// and every other record stays where it is.
#[verifier::external_body]
pub(crate) fn votes_set(
    v: &mut BoundedVec<VoteRecord, MaxVoters>,
    index: usize,
    record: VoteRecord,
)
    requires
        index < vote_items(*old(v)).len(),
    ensures
        vote_items(*final(v)) == vote_items(*old(v)).update(index as int, record),
{
    v[index] = record;
}

/// Calls `BoundedVec::try_push`. Claimed: while the round holds fewer than
/// `MAX_VOTERS` records, the record is added at the end and the answer is
/// `Ok`; otherwise the round stays as it is and the record comes back in
/// `Err`.
#[verifier::external_body]
pub(crate) fn votes_try_push(
    v: &mut BoundedVec<VoteRecord, MaxVoters>,
    record: VoteRecord,
) -> (r: Result<(), VoteRecord>)
    ensures
        vote_items(*old(v)).len() < MAX_VOTERS ==> r is Ok && vote_items(*final(v))
            == vote_items(*old(v)).push(record),
        vote_items(*old(v)).len() >= MAX_VOTERS ==> r is Err && r->Err_0 == record
            && vote_items(*final(v)) == vote_items(*old(v)),
{
    v.try_push(record)
}

} // verus!

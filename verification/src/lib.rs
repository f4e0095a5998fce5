//! Bounded-membership voting.
//!
//! A registry of at most [`MAX_VOTERS`] accounts may vote in a round. Each
//! voter holds at most one vote in the round, which a later vote of the same
//! account replaces. A round is decided as soon as the voters who have not yet
//! voted can no longer change the outcome; deciding it empties the round and
//! leaves the registry as it is.
//!
//! The state is kept in `frame_support`'s `BoundedVec`, and every operation is
//! one transition of [`Pallet`], whose contract is stated over the
//! mathematical [`State`] that the pallet stands for.

pub mod bounded;
pub mod laws;
pub mod model;
pub mod origin;
pub mod pallet;
pub mod types;

pub use model::{State, Step};
pub use origin::{ensure_root, ensure_signed, BadOrigin, Origin};
pub use pallet::Pallet;
pub use types::{
    AccountId, DispatchError, Error, Event, MaxVoters, UserVote, Vote, VoteRecord, MAX_VOTERS,
};

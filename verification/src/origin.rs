//! Who calls: the classes of callers, and the two checks on them.

use crate::types::AccountId;
use vstd::prelude::*;

verus! {

/// The class of a caller. `Root` is the privileged class, `Signed` carries the
/// account that was authenticated, and `Unsigned` is a caller whom nobody
/// vouches for.
#[derive(Clone, Copy, Debug, PartialEq, Eq, Structural)]
pub enum Origin {
    Root,
    Signed(AccountId),
    Unsigned,
}

/// The caller is not of the class that the operation asks for.
#[derive(Clone, Copy, Debug, PartialEq, Eq, Structural)]
pub struct BadOrigin;

/// Succeeds for the privileged caller and for no other.
pub fn ensure_root(origin: Origin) -> (r: Result<(), BadOrigin>)
    ensures
        r is Ok <==> origin == Origin::Root,
{
    match origin {
        Origin::Root => Ok(()),
        _ => Err(BadOrigin),
    }
}

/// The account of an authenticated caller; fails for every other class.
pub fn ensure_signed(origin: Origin) -> (r: Result<AccountId, BadOrigin>)
    ensures
        match r {
            Ok(who) => origin == Origin::Signed(who),
            Err(_) => !(origin is Signed),
        },
{
    match origin {
        Origin::Signed(who) => Ok(who),
        _ => Err(BadOrigin),
    }
}

} // verus!

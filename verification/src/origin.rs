//! Who a call comes from.

use crate::address::AccountId;
use vstd::prelude::*;

verus! {

/// The origin of a call.
#[derive(Clone, Copy, Debug, PartialEq, Eq)]
pub enum RawOrigin {
    /// The system itself.
    Root,
    /// One account, which signed the call.
    Signed(AccountId),
    /// Nobody signed the call.
    Unsigned,
    /// Nobody signed the call; the runtime authorized it.
    Authorized,
    /// An origin that another part of the runtime defines.
    Other,
}

/// The origin is not the one that the call asks for.
#[derive(Clone, Copy, Debug, PartialEq, Eq, Structural)]
pub struct BadOrigin;

/// The account that signed, if the origin is one signing account.
pub open spec fn signer(origin: RawOrigin) -> Option<AccountId> {
    match origin {
        RawOrigin::Signed(who) => Some(who),
        _ => None,
    }
}

/// Gives the account that signed the call, and refuses every origin that is
/// not one signing account.
pub fn ensure_signed(origin: RawOrigin) -> (r: Result<AccountId, BadOrigin>)
    ensures
        r == match signer(origin) {
            Some(who) => Ok::<AccountId, BadOrigin>(who),
            None => Err::<AccountId, BadOrigin>(BadOrigin),
        },
{
    match origin {
        RawOrigin::Signed(who) => Ok(who),
        _ => Err(BadOrigin),
    }
}

} // verus!

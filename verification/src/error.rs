//! Why a request is turned down.

use vstd::prelude::*;

verus! {

/// The pallet's own reasons to turn a request down.
#[derive(Clone, Copy, Debug, PartialEq, Eq, Structural)]
pub enum Error {
    /// The pallet is in maintenance mode.
    Disabled,
    /// The outbound channel did not accept the message. This says nothing
    /// of what the relay chain would have done with it.
    FailedXcmTransaction,
    /// The amount does not fit the integer width used on the wire.
    FailedToConvertBalance,
}

/// Why a dispatched call failed.
#[derive(Clone, Copy, Debug, PartialEq, Eq, Structural)]
pub enum DispatchError {
    /// The call did not come from a single signing account.
    BadOrigin,
    /// The pallet turned the request down.
    Module(Error),
}

} // verus!

//! The sending side of a remote "create nomination pool" call.
//!
//! A signed request is checked, its amount is narrowed to the integer width
//! used on the wire, the call is written in the byte format of the relay
//! chain's call table, and a short instruction sequence is prepared for the
//! outbound channel. Sending itself is left to the caller, who reports back
//! whether the channel accepted the message.

pub mod address;
pub mod balance;
pub mod call;
pub mod codec;
pub mod error;
pub mod message;
pub mod origin;
pub mod pallet;

pub use address::{AccountId, MultiAddress, MultiAddressView};
pub use balance::Balance;
pub use call::{NominationPoolsCall, NominationPoolsCallView, RelayChainCall, RelayChainCallView};
pub use error::{DispatchError, Error};
pub use message::{
    build_pipeline, Asset, Instruction, Location, SendError, Weight, WeightLimit, Xcm, XcmHash,
    FEE_BUDGET,
};
pub use origin::{ensure_signed, BadOrigin, RawOrigin};
pub use pallet::{Dispatch, Event, EventView, Pallet};

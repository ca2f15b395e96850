//! The instruction sequence handed to the outbound channel, and the
//! channel's answer.

use vstd::prelude::*;

verus! {

/// What executing the message on the relay chain may cost at most, in units
/// of the native asset. It does not depend on the amount bonded.
pub const FEE_BUDGET: u128 = 1_000_000_000;

/// The hash by which the channel identifies an accepted message.
pub type XcmHash = [u8; 32];

/// A place in the hierarchy of consensus systems, relative to the sender:
/// the sender itself or one of its ancestors.
#[derive(Clone, Copy, Debug, PartialEq, Eq, Structural)]
pub struct Location {
    /// How many levels up the place is.
    pub parents: u8,
}

impl Location {
    /// The sender's own place.
    pub open spec fn spec_here() -> Location {
        Location { parents: 0 }
    }

    /// The system directly above the sender.
    pub open spec fn spec_parent() -> Location {
        Location { parents: 1 }
    }

    /// The sender's own place.
    #[verifier::when_used_as_spec(spec_here)]
    pub fn here() -> (location: Location)
        ensures
            location == Location::spec_here(),
    {
        Location { parents: 0 }
    }

    /// The system directly above the sender.
    #[verifier::when_used_as_spec(spec_parent)]
    pub fn parent() -> (location: Location)
        ensures
            location == Location::spec_parent(),
    {
        Location { parents: 1 }
    }
}

/// An amount of the fungible asset that is native to a place.
#[derive(Clone, Copy, Debug, PartialEq, Eq, Structural)]
pub struct Asset {
    /// The place whose native asset is meant.
    pub id: Location,
    /// How many units.
    pub amount: u128,
}

/// An amount of computation and of proof size.
#[derive(Clone, Copy, Debug, PartialEq, Eq, Structural)]
pub struct Weight {
    pub ref_time: u64,
    pub proof_size: u64,
}

/// How much weight bought execution may use.
#[derive(Clone, Copy, Debug, PartialEq, Eq, Structural)]
pub enum WeightLimit {
    /// As much as the fees pay for.
    Unlimited,
    /// No more than the given weight.
    Limited(Weight),
}

/// One step of a message. The receiver runs the steps in order.
#[derive(Clone, Copy, Debug, PartialEq, Eq, Structural)]
pub enum Instruction {
    /// Take the asset from the sender's account on the receiving side and
    /// hold it for the steps that follow.
    WithdrawAsset(Asset),
    /// Pay for the execution of the steps that follow, with up to `fees` out
    /// of what is held.
    BuyExecution { fees: Asset, weight_limit: WeightLimit },
}

/// A message: a finite sequence of instructions.
#[derive(Debug, PartialEq, Eq)]
pub struct Xcm(pub Vec<Instruction>);

impl View for Xcm {
    type V = Seq<Instruction>;

    open spec fn view(&self) -> Seq<Instruction> {
        self.0@
    }
}

/// Why the channel did not accept a message.
#[derive(Clone, Copy, Debug, PartialEq, Eq, Structural)]
pub enum SendError {
    /// No route is known for the message and its destination.
    NotApplicable,
    /// The transport failed.
    Transport,
    /// The destination cannot be reached.
    Unroutable,
    /// The destination would not understand the message.
    DestinationUnsupported,
    /// The message is longer than the transport allows.
    ExceedsMaxMessageSize,
    /// Something needed for sending was missing.
    MissingArgument,
    /// The delivery fees could not be paid.
    Fees,
}

/// The instructions that bond `wire_amount` on the receiving side: withdraw
/// that amount of the native asset, then buy execution for at most
/// `fee_budget`, with no limit on weight.
pub open spec fn pipeline(wire_amount: u128, fee_budget: u128) -> Seq<Instruction> {
    seq![
        Instruction::WithdrawAsset(Asset { id: Location::spec_here(), amount: wire_amount }),
        Instruction::BuyExecution {
            fees: Asset { id: Location::spec_here(), amount: fee_budget },
            weight_limit: WeightLimit::Unlimited,
        },
    ]
}

/// Whether every withdrawal stands before every purchase of execution.
pub open spec fn withdraws_before_buying(instructions: Seq<Instruction>) -> bool {
    forall|i: int, j: int|
        0 <= i < instructions.len() && 0 <= j < instructions.len()
            && instructions[i] is WithdrawAsset && instructions[j] is BuyExecution ==> i < j
}

/// Builds the message that bonds `wire_amount`: see [`pipeline`]. Neither
/// amount is held against the sender's funds; the receiving side does that
/// when it withdraws.
pub fn build_pipeline(wire_amount: u128, fee_budget: u128) -> (message: Xcm)
    ensures
        message@ == pipeline(wire_amount, fee_budget),
        withdraws_before_buying(message@),
{
    let mut instructions: Vec<Instruction> = Vec::new();
    instructions.push(
        Instruction::WithdrawAsset(Asset { id: Location::here(), amount: wire_amount }),
    );
    instructions.push(
        Instruction::BuyExecution {
            fees: Asset { id: Location::here(), amount: fee_budget },
            weight_limit: WeightLimit::Unlimited,
        },
    );
    Xcm(instructions)
}

} // verus!

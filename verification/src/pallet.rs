//! The pallet: its maintenance flag, its events, and the one call that it
//! offers.
//!
//! A request goes through its states in one go: it is authorized, the amount
//! is narrowed, the call and the message are built, and the message is
//! handed to the channel. Handing over is the caller's part. So the call
//! comes in two halves: [`Pallet::create_nomination_pool`] ends where the
//! message is ready to be sent, and [`Dispatch::complete`] takes the
//! channel's answer to the outcome. Nothing is kept between requests.

use crate::address::{account_id_unlookup, AccountId, MultiAddress, MultiAddressView};
use crate::balance::Balance;
use crate::call::{RelayChainCall, RelayChainCallView};
use crate::error::{DispatchError, Error};
use crate::message::{build_pipeline, pipeline, Location, SendError, Xcm, XcmHash, FEE_BUDGET};
use crate::origin::{ensure_signed, signer, RawOrigin};
use vstd::prelude::*;

verus! {

/// What the pallet reports of a request. `C` names what the request is made
/// for.
#[derive(Debug, PartialEq, Eq)]
pub enum Event<C> {
    /// The channel accepted the message sent for the account, on behalf of
    /// the given subject. Whether the relay chain will carry it out is not
    /// known.
    BondAndStake(AccountId, C),
    /// The bytes of the relay chain call that was built, for tracing.
    DebugNominationPool(Vec<u8>),
}

/// What an [`Event`] holds.
pub enum EventView<C> {
    BondAndStake(Seq<u8>, C),
    DebugNominationPool(Seq<u8>),
}

impl<C> View for Event<C> {
    type V = EventView<C>;

    open spec fn view(&self) -> EventView<C> {
        match self {
            Event::BondAndStake(who, subject) => EventView::BondAndStake(who@, *subject),
            Event::DebugNominationPool(bytes) => EventView::DebugNominationPool(bytes@),
        }
    }
}

/// A request that has passed every check on this side and waits for the
/// channel.
#[derive(Debug, PartialEq, Eq)]
pub struct Dispatch<C> {
    /// The account that signed the request.
    pub staker: AccountId,
    /// What the request is made for.
    pub contract_id: C,
    /// The event that building the call has emitted.
    pub event: Event<C>,
    /// Where the message goes.
    pub destination: Location,
    /// The message to send.
    pub message: Xcm,
}

impl<C> Dispatch<C> {
    /// Whether this is the request of `who` for `contract_id` to bond
    /// `amount`: the event holds the bytes of the call that creates a pool
    /// with `who` in all three roles, and the message for the system above
    /// withdraws `amount` and buys execution out of the fixed fee budget.
    pub open spec fn bonds(self, who: AccountId, contract_id: C, amount: u128) -> bool {
        &&& self.staker == who
        &&& self.contract_id == contract_id
        &&& self.event@ == EventView::<C>::DebugNominationPool(
            RelayChainCallView::create_pool(amount, MultiAddressView::Id(who@)).encoding(),
        )
        &&& self.destination == Location::spec_parent()
        &&& self.message@ == pipeline(amount, FEE_BUDGET)
    }

    /// What the request comes to, given the channel's answer.
    pub open spec fn outcome(self, sent: Result<XcmHash, SendError>) -> Result<
        EventView<C>,
        DispatchError,
    > {
        match sent {
            Ok(_) => Ok(EventView::BondAndStake(self.staker@, self.contract_id)),
            Err(_) => Err(DispatchError::Module(Error::FailedXcmTransaction)),
        }
    }

    /// Ends the request with the channel's answer. If the channel accepted
    /// the message, the event that records the account and the subject is
    /// emitted. If it did not, for whatever reason, the request fails and no
    /// further event is emitted; nothing is retried or undone.
    pub fn complete(self, sent: Result<XcmHash, SendError>) -> (r: Result<Event<C>, DispatchError>)
        ensures
            match r {
                Ok(event) => self.outcome(sent) == Ok::<EventView<C>, DispatchError>(event@),
                Err(error) => self.outcome(sent) == Err::<EventView<C>, DispatchError>(error),
            },
            sent is Ok <==> r is Ok,
    {
        match sent {
            Ok(_) => Ok(Event::BondAndStake(self.staker, self.contract_id)),
            Err(_) => Err(DispatchError::Module(Error::FailedXcmTransaction)),
        }
    }
}

/// Why a request is refused before anything is built, if it is: the
/// maintenance flag comes first, then the origin, then the amount.
pub open spec fn refusal(disabled: bool, origin: RawOrigin, value: Balance) -> Option<
    DispatchError,
> {
    if disabled {
        Some(DispatchError::Module(Error::Disabled))
    } else if signer(origin) is None {
        Some(DispatchError::BadOrigin)
    } else if value@ > u128::MAX {
        Some(DispatchError::Module(Error::FailedToConvertBalance))
    } else {
        None
    }
}

/// The pallet's state: whether it is disabled for maintenance.
#[derive(Debug)]
pub struct Pallet {
    disabled: bool,
}

impl Pallet {
    /// Whether the pallet is disabled.
    pub closed spec fn spec_pallet_disabled(&self) -> bool {
        self.disabled
    }

    /// A pallet that is enabled.
    pub fn new() -> (pallet: Pallet)
        ensures
            !pallet.pallet_disabled(),
    {
        Pallet { disabled: false }
    }

    /// Whether the pallet is disabled.
    #[verifier::when_used_as_spec(spec_pallet_disabled)]
    pub fn pallet_disabled(&self) -> (disabled: bool)
        ensures
            disabled == self.spec_pallet_disabled(),
    {
        self.disabled
    }

    /// Disables or enables the pallet. No request does this.
    pub fn set_pallet_disabled(&mut self, disabled: bool)
        ensures
            final(self).pallet_disabled() == disabled,
    {
        self.disabled = disabled;
    }

    /// `Err` if the pallet is disabled for maintenance, `Ok` otherwise.
    pub fn ensure_pallet_enabled(&self) -> (r: Result<(), Error>)
        ensures
            self.pallet_disabled() ==> r == Err::<(), Error>(Error::Disabled),
            !self.pallet_disabled() ==> r == Ok::<(), Error>(()),
    {
        if self.disabled {
            Err(Error::Disabled)
        } else {
            Ok(())
        }
    }

    /// Lets a request in: the pallet must be enabled and the origin must be
    /// one signing account, which is returned. A disabled pallet refuses
    /// every origin alike.
    pub fn authorize(&self, origin: RawOrigin) -> (r: Result<AccountId, DispatchError>)
        ensures
            self.pallet_disabled() ==> r == Err::<AccountId, DispatchError>(
                DispatchError::Module(Error::Disabled),
            ),
            !self.pallet_disabled() && signer(origin) is None ==> r == Err::<
                AccountId,
                DispatchError,
            >(DispatchError::BadOrigin),
            !self.pallet_disabled() && signer(origin) is Some ==> r == Ok::<
                AccountId,
                DispatchError,
            >(signer(origin)->Some_0),
    {
        match self.ensure_pallet_enabled() {
            Ok(()) => {},
            Err(error) => {
                return Err(DispatchError::Module(error));
            },
        }
        match ensure_signed(origin) {
            Ok(who) => Ok(who),
            Err(_) => Err(DispatchError::BadOrigin),
        }
    }

    /// Prepares the creation of a nomination pool on the relay chain, with
    /// `value` as its bond and the signing account as root, nominator and
    /// bouncer, on behalf of `contract_id`.
    ///
    /// The request is refused if the pallet is disabled, else if the origin
    /// is not one signing account, else if `value` does not fit the wire:
    /// see [`refusal`]. A refused request has built nothing and emitted
    /// nothing. Otherwise the result holds the emitted event with the bytes
    /// of the call, and the message for the system above: see
    /// [`Dispatch::bonds`]. The pallet's state is read, never written.
    pub fn create_nomination_pool<C>(&self, origin: RawOrigin, contract_id: C, value: Balance) -> (r:
        Result<Dispatch<C>, DispatchError>)
        ensures
            match r {
                Ok(dispatch) => refusal(self.pallet_disabled(), origin, value) is None
                    && dispatch.bonds(signer(origin)->Some_0, contract_id, value@ as u128),
                Err(error) => refusal(self.pallet_disabled(), origin, value) == Some(error),
            },
            self.pallet_disabled() ==> r is Err && r->Err_0 == DispatchError::Module(Error::Disabled),
    {
        let staker: AccountId = self.authorize(origin)?;
        let amount: u128 = match value.to_wire_amount() {
            Ok(amount) => amount,
            Err(error) => {
                return Err(DispatchError::Module(error));
            },
        };
        let address: MultiAddress = account_id_unlookup(staker);
        let call: RelayChainCall = RelayChainCall::create_pool(amount, address);
        let encoded_call: Vec<u8> = call.encode();
        Ok(
            Dispatch {
                staker,
                contract_id,
                event: Event::DebugNominationPool(encoded_call),
                destination: Location::parent(),
                message: build_pipeline(amount, FEE_BUDGET),
            },
        )
    }
}

} // verus!

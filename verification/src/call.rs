//! Calls of the relay chain, as its call table numbers them.
//!
//! The indices are fixed by the relay chain's runtime: a call written with
//! another index is routed to another call there, or fails to decode, and
//! nothing on this side can tell.

use crate::address::{encode_address, AccountId, MultiAddress, MultiAddressView};
use crate::codec::{
    compact, compact_len, compact_u128, lemma_compact_examples, lemma_compact_injective,
    lemma_compact_len,
};
use vstd::prelude::*;

verus! {

/// Index of the nomination pools pallet in the relay chain's call table.
pub const NOMINATION_POOLS_INDEX: u8 = 39;

/// Index of the call that creates a pool, within the nomination pools pallet.
pub const CREATE_INDEX: u8 = 6;

/// Calls of the relay chain's nomination pools pallet.
#[derive(Debug, PartialEq, Eq)]
pub enum NominationPoolsCall {
    /// Create a pool with the given initial bond, and the accounts that act
    /// as its root, its nominator and its bouncer.
    Create(u128, MultiAddress, MultiAddress, MultiAddress),
}

/// Calls of the relay chain.
#[derive(Debug, PartialEq, Eq)]
pub enum RelayChainCall {
    /// A call of the nomination pools pallet.
    NominationPools(NominationPoolsCall),
}

/// What a [`NominationPoolsCall`] holds.
pub enum NominationPoolsCallView {
    Create(u128, MultiAddressView, MultiAddressView, MultiAddressView),
}

/// What a [`RelayChainCall`] holds.
pub enum RelayChainCallView {
    NominationPools(NominationPoolsCallView),
}

impl View for NominationPoolsCall {
    type V = NominationPoolsCallView;

    open spec fn view(&self) -> NominationPoolsCallView {
        match self {
            NominationPoolsCall::Create(amount, root, nominator, bouncer) => {
                NominationPoolsCallView::Create(*amount, root@, nominator@, bouncer@)
            },
        }
    }
}

impl View for RelayChainCall {
    type V = RelayChainCallView;

    open spec fn view(&self) -> RelayChainCallView {
        match self {
            RelayChainCall::NominationPools(call) => RelayChainCallView::NominationPools(call@),
        }
    }
}

impl NominationPoolsCallView {
    /// Whether every address of the call can be written.
    pub open spec fn encodable(self) -> bool {
        match self {
            NominationPoolsCallView::Create(_, root, nominator, bouncer) => {
                root.encodable() && nominator.encodable() && bouncer.encodable()
            },
        }
    }

    /// The bytes of the call on the wire: its index, the compact amount, and
    /// the three addresses in order.
    pub open spec fn encoding(self) -> Seq<u8> {
        match self {
            NominationPoolsCallView::Create(amount, root, nominator, bouncer) => {
                seq![CREATE_INDEX] + compact(amount as nat) + root.encoding()
                    + nominator.encoding() + bouncer.encoding()
            },
        }
    }
}

impl RelayChainCallView {
    /// Whether every address of the call can be written.
    pub open spec fn encodable(self) -> bool {
        match self {
            RelayChainCallView::NominationPools(call) => call.encodable(),
        }
    }

    /// The bytes of the call on the wire: the index of the pallet, then the
    /// pallet's call.
    pub open spec fn encoding(self) -> Seq<u8> {
        match self {
            RelayChainCallView::NominationPools(call) => {
                seq![NOMINATION_POOLS_INDEX] + call.encoding()
            },
        }
    }

    /// The call that creates a pool in which `who` fills all three roles.
    pub open spec fn create_pool(amount: u128, who: MultiAddressView) -> RelayChainCallView {
        RelayChainCallView::NominationPools(NominationPoolsCallView::Create(amount, who, who, who))
    }
}

impl NominationPoolsCall {
    /// Whether every address of the call can be written.
    pub fn is_encodable(&self) -> (encodable: bool)
        ensures
            encodable == self@.encodable(),
    {
        match self {
            NominationPoolsCall::Create(_, root, nominator, bouncer) => {
                root.is_encodable() && nominator.is_encodable() && bouncer.is_encodable()
            },
        }
    }

    /// Appends the bytes of the call to `dest`.
    pub fn encode_to(&self, dest: &mut Vec<u8>)
        requires
            self@.encodable(),
        ensures
            final(dest)@ == old(dest)@ + self@.encoding(),
    {
        match self {
            NominationPoolsCall::Create(amount, root, nominator, bouncer) => {
                dest.push(CREATE_INDEX);
                let mut part: Vec<u8> = compact_u128(*amount);
                dest.append(&mut part);
                let mut part: Vec<u8> = encode_address(root);
                dest.append(&mut part);
                let mut part: Vec<u8> = encode_address(nominator);
                dest.append(&mut part);
                let mut part: Vec<u8> = encode_address(bouncer);
                dest.append(&mut part);
            },
        }
    }

    /// The bytes of the call on the wire.
    pub fn encode(&self) -> (out: Vec<u8>)
        requires
            self@.encodable(),
        ensures
            out@ == self@.encoding(),
    {
        let mut out: Vec<u8> = Vec::new();
        self.encode_to(&mut out);
        out
    }
}

impl RelayChainCall {
    /// The call that creates a pool with `amount` as its initial bond, in
    /// which the one account `who` is root, nominator and bouncer. The
    /// amount is not held against the relay chain's minimum bond.
    pub fn create_pool(amount: u128, who: MultiAddress) -> (call: RelayChainCall)
        ensures
            call@ == RelayChainCallView::create_pool(amount, who@),
    {
        let nominator: MultiAddress = who.clone();
        let bouncer: MultiAddress = who.clone();
        RelayChainCall::NominationPools(NominationPoolsCall::Create(amount, who, nominator, bouncer))
    }

    /// Whether every address of the call can be written.
    pub fn is_encodable(&self) -> (encodable: bool)
        ensures
            encodable == self@.encodable(),
    {
        match self {
            RelayChainCall::NominationPools(call) => call.is_encodable(),
        }
    }

    /// The bytes of the call on the wire.
    pub fn encode(&self) -> (out: Vec<u8>)
        requires
            self@.encodable(),
        ensures
            out@ == self@.encoding(),
    {
        let mut out: Vec<u8> = Vec::new();
        out.push(NOMINATION_POOLS_INDEX);
        match self {
            RelayChainCall::NominationPools(call) => {
                call.encode_to(&mut out);
            },
        }
        out
    }
}

/// The reference encoding: the call that creates a pool with a bond of 1000
/// for an account is written as the indices 39 and 6, the compact amount
/// `a1 0f`, and three times a zero byte and the account's 32 bytes.
pub proof fn lemma_reference_encoding(who: AccountId)
    ensures
        RelayChainCallView::create_pool(1_000, MultiAddressView::Id(who@)).encoding() == seq![
            39u8,
            6u8,
            0xa1u8,
            0x0fu8,
        ] + (seq![0u8] + who@) + (seq![0u8] + who@) + (seq![0u8] + who@),
{
    lemma_compact_examples();
    assert(RelayChainCallView::create_pool(1_000, MultiAddressView::Id(who@)).encoding() =~= seq![
        39u8,
        6u8,
        0xa1u8,
        0x0fu8,
    ] + (seq![0u8] + who@) + (seq![0u8] + who@) + (seq![0u8] + who@));
}

/// The call that creates a pool is routed by its first two bytes: the index
/// of the nomination pools pallet, then the index of the call.
pub proof fn lemma_create_pool_indices(amount: u128, who: MultiAddressView)
    ensures
        RelayChainCallView::create_pool(amount, who).encoding().len() >= 2,
        RelayChainCallView::create_pool(amount, who).encoding()[0] == NOMINATION_POOLS_INDEX,
        RelayChainCallView::create_pool(amount, who).encoding()[1] == CREATE_INDEX,
{
}

/// The call that creates a pool for an account is written in two index
/// bytes, the compact amount, and three times 33 bytes of address.
pub proof fn lemma_create_pool_len(amount: u128, who: AccountId)
    ensures
        RelayChainCallView::create_pool(amount, MultiAddressView::Id(who@)).encoding().len() == 2
            + compact_len(amount as nat) + 99,
        RelayChainCallView::create_pool(amount, MultiAddressView::Id(who@)).encoding().len() <= 118,
{
    lemma_compact_len(amount);
    assert(who@.len() == 32);
}

/// Nothing is lost in writing: calls that create a pool for an account and
/// are written as the same bytes hold the same amount and the same account.
pub proof fn lemma_create_pool_injective(
    amount_a: u128,
    who_a: AccountId,
    amount_b: u128,
    who_b: AccountId,
)
    requires
        RelayChainCallView::create_pool(amount_a, MultiAddressView::Id(who_a@)).encoding()
            == RelayChainCallView::create_pool(amount_b, MultiAddressView::Id(who_b@)).encoding(),
    ensures
        amount_a == amount_b,
        who_a@ == who_b@,
{
    let bytes_a = RelayChainCallView::create_pool(amount_a, MultiAddressView::Id(who_a@)).encoding();
    let bytes_b = RelayChainCallView::create_pool(amount_b, MultiAddressView::Id(who_b@)).encoding();
    let len = compact_len(amount_a as nat) as int;
    lemma_create_pool_len(amount_a, who_a);
    lemma_create_pool_len(amount_b, who_b);
    lemma_compact_len(amount_a);
    lemma_compact_len(amount_b);
    assert(who_a@.len() == 32 && who_b@.len() == 32);
    assert(compact(amount_a as nat) =~= bytes_a.subrange(2, 2 + len));
    assert(compact(amount_b as nat) =~= bytes_b.subrange(2, 2 + len));
    lemma_compact_injective(amount_a, amount_b);
    assert(who_a@ =~= bytes_a.subrange(3 + len, 35 + len));
    assert(who_b@ =~= bytes_b.subrange(3 + len, 35 + len));
}

/// The bytes of a call depend on what the call holds and on nothing else:
/// calls that hold the same values are written as the same bytes.
pub proof fn lemma_encoding_deterministic(a: RelayChainCall, b: RelayChainCall)
    requires
        a@ == b@,
    ensures
        a@.encoding() == b@.encoding(),
{
}

/// The same amount and the same address give the same bytes of the call
/// that creates a pool.
pub proof fn lemma_create_pool_deterministic(
    amount_a: u128,
    who_a: MultiAddress,
    amount_b: u128,
    who_b: MultiAddress,
)
    requires
        amount_a == amount_b,
        who_a@ == who_b@,
    ensures
        RelayChainCallView::create_pool(amount_a, who_a@).encoding()
            == RelayChainCallView::create_pool(amount_b, who_b@).encoding(),
{
}

} // verus!

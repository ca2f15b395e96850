//! Accounts and the addresses by which the relay chain looks them up.

use crate::codec::compact;
use parity_scale_codec::Encode;
use sp_runtime::traits::StaticLookup;
use vstd::prelude::*;

verus! {

/// A 32-byte account identifier.
#[derive(Clone, Copy, Debug, PartialEq, Eq)]
pub struct AccountId(pub [u8; 32]);

impl View for AccountId {
    type V = Seq<u8>;

    open spec fn view(&self) -> Seq<u8> {
        self.0@
    }
}

/// An account as the relay chain's calls name it: one of several address
/// formats. Account indices carry no data on the relay chain.
#[derive(Debug, PartialEq, Eq)]
pub enum MultiAddress {
    /// An account identifier.
    Id(AccountId),
    /// An account index.
    Index,
    /// Arbitrary bytes.
    Raw(Vec<u8>),
    /// A 32-byte representation.
    Address32([u8; 32]),
    /// A 20-byte representation.
    Address20([u8; 20]),
}

/// What a [`MultiAddress`] holds, as byte sequences.
pub enum MultiAddressView {
    Id(Seq<u8>),
    Index,
    Raw(Seq<u8>),
    Address32(Seq<u8>),
    Address20(Seq<u8>),
}

impl View for MultiAddress {
    type V = MultiAddressView;

    open spec fn view(&self) -> MultiAddressView {
        match self {
            MultiAddress::Id(who) => MultiAddressView::Id(who@),
            MultiAddress::Index => MultiAddressView::Index,
            MultiAddress::Raw(bytes) => MultiAddressView::Raw(bytes@),
            MultiAddress::Address32(bytes) => MultiAddressView::Address32(bytes@),
            MultiAddress::Address20(bytes) => MultiAddressView::Address20(bytes@),
        }
    }
}

impl Clone for MultiAddress {
    fn clone(&self) -> (copy: MultiAddress)
        ensures
            copy@ == self@,
    {
        match self {
            MultiAddress::Id(who) => MultiAddress::Id(*who),
            MultiAddress::Index => MultiAddress::Index,
            MultiAddress::Raw(bytes) => MultiAddress::Raw(bytes.clone()),
            MultiAddress::Address32(bytes) => MultiAddress::Address32(*bytes),
            MultiAddress::Address20(bytes) => MultiAddress::Address20(*bytes),
        }
    }
}

impl MultiAddress {
    /// Whether the address can be written: see [`MultiAddressView::encodable`].
    pub fn is_encodable(&self) -> (encodable: bool)
        ensures
            encodable == self@.encodable(),
    {
        match self {
            MultiAddress::Raw(bytes) => bytes.len() <= u32::MAX as usize,
            _ => true,
        }
    }
}

impl MultiAddressView {
    /// Whether the address can be written: the length of raw bytes is
    /// written as a 32-bit integer.
    pub open spec fn encodable(self) -> bool {
        self matches MultiAddressView::Raw(bytes) ==> bytes.len() <= u32::MAX
    }

    /// The bytes of the address on the wire: the index of the variant, then
    /// what it holds. Fixed-size contents are written as they are; raw bytes
    /// follow their compact length.
    pub open spec fn encoding(self) -> Seq<u8> {
        match self {
            MultiAddressView::Id(who) => seq![0u8] + who,
            MultiAddressView::Index => seq![1u8],
            MultiAddressView::Raw(bytes) => seq![2u8] + compact(bytes.len()) + bytes,
            MultiAddressView::Address32(bytes) => seq![3u8] + bytes,
            MultiAddressView::Address20(bytes) => seq![4u8] + bytes,
        }
    }
}

/// The address under which an account is looked up, by `sp_runtime`'s
/// `AccountIdLookup::unlookup`.
///
/// Trusted: the result is the account identifier itself, as the address
/// format [`MultiAddress::Id`].
#[verifier::external_body]
pub(crate) fn account_id_unlookup(who: AccountId) -> (address: MultiAddress)
    ensures
        address@ == MultiAddressView::Id(who@),
{
    let outside = sp_runtime::AccountId32::new(who.0);
    match sp_runtime::traits::AccountIdLookup::<sp_runtime::AccountId32, ()>::unlookup(outside) {
        sp_runtime::MultiAddress::Id(id) => MultiAddress::Id(AccountId(id.into())),
        sp_runtime::MultiAddress::Index(()) => MultiAddress::Index,
        sp_runtime::MultiAddress::Raw(bytes) => MultiAddress::Raw(bytes),
        sp_runtime::MultiAddress::Address32(bytes) => MultiAddress::Address32(bytes),
        sp_runtime::MultiAddress::Address20(bytes) => MultiAddress::Address20(bytes),
    }
}

/// The bytes of an address on the wire, by `parity_scale_codec`'s
/// `Encode::encode` on `sp_runtime::MultiAddress<AccountId32, ()>`.
///
/// Trusted: the bytes returned are exactly [`MultiAddressView::encoding`] of
/// the address.
#[verifier::external_body]
pub(crate) fn encode_address(address: &MultiAddress) -> (out: Vec<u8>)
    requires
        address@.encodable(),
    ensures
        out@ == address@.encoding(),
{
    let outside: sp_runtime::MultiAddress<sp_runtime::AccountId32, ()> = match address {
        MultiAddress::Id(who) => sp_runtime::MultiAddress::Id(sp_runtime::AccountId32::new(who.0)),
        MultiAddress::Index => sp_runtime::MultiAddress::Index(()),
        MultiAddress::Raw(bytes) => sp_runtime::MultiAddress::Raw(bytes.clone()),
        MultiAddress::Address32(bytes) => sp_runtime::MultiAddress::Address32(*bytes),
        MultiAddress::Address20(bytes) => sp_runtime::MultiAddress::Address20(*bytes),
    };
    outside.encode()
}

} // verus!

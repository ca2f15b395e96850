use nomination_pools_staking::{AccountId, MultiAddress, NominationPoolsCall, RelayChainCall};
use parity_scale_codec::{Compact, Encode};

fn alice() -> AccountId {
    let mut bytes = [0u8; 32];
    for (i, b) in bytes.iter_mut().enumerate() {
        *b = (i as u8).wrapping_mul(7).wrapping_add(1);
    }
    AccountId(bytes)
}

fn outside(who: &AccountId) -> sp_runtime::MultiAddress<sp_runtime::AccountId32, ()> {
    sp_runtime::MultiAddress::Id(sp_runtime::AccountId32::new(who.0))
}

/// The bytes of `Create(amount, Index, Index, Index)` without the call index
/// and the three address bytes: the compact amount.
fn compact_of(amount: u128) -> Vec<u8> {
    let call = NominationPoolsCall::Create(
        amount,
        MultiAddress::Index,
        MultiAddress::Index,
        MultiAddress::Index,
    );
    let bytes = call.encode();
    assert_eq!(bytes[0], 6);
    assert_eq!(&bytes[bytes.len() - 3..], &[1u8, 1, 1]);
    bytes[1..bytes.len() - 3].to_vec()
}

#[test]
fn create_pool_matches_reference_bytes() {
    let who = alice();
    let call = RelayChainCall::create_pool(1_000, MultiAddress::Id(who));
    let mut expected: Vec<u8> = vec![39, 6, 0xa1, 0x0f];
    for _ in 0..3 {
        expected.push(0);
        expected.extend_from_slice(&who.0);
    }
    assert_eq!(expected.len(), 103);
    assert_eq!(call.encode(), expected);
}

#[test]
fn create_pool_matches_the_codec_on_a_tuple() {
    let who = alice();
    for amount in [0u128, 1, 1_000, 501_000_000_000, u64::MAX as u128 + 1, u128::MAX] {
        let call = RelayChainCall::create_pool(amount, MultiAddress::Id(who));
        let reference =
            (39u8, 6u8, Compact(amount), outside(&who), outside(&who), outside(&who)).encode();
        assert_eq!(call.encode(), reference);
    }
}

#[test]
fn create_pool_fills_all_three_roles_with_one_address() {
    let who = MultiAddress::Address20([5u8; 20]);
    let call = RelayChainCall::create_pool(7, who.clone());
    assert_eq!(
        call,
        RelayChainCall::NominationPools(NominationPoolsCall::Create(
            7,
            who.clone(),
            who.clone(),
            who
        ))
    );
}

#[test]
fn outer_call_is_inner_call_behind_the_pallet_index() {
    let who = alice();
    let inner = NominationPoolsCall::Create(
        77,
        MultiAddress::Id(who),
        MultiAddress::Id(who),
        MultiAddress::Id(who),
    );
    let inner_bytes = inner.encode();
    let outer_bytes = RelayChainCall::NominationPools(inner).encode();
    assert_eq!(outer_bytes[0], 39);
    assert_eq!(outer_bytes[1], 6);
    assert_eq!(&outer_bytes[1..], &inner_bytes[..]);
}

#[test]
fn encode_to_appends_to_what_is_there() {
    let call = NominationPoolsCall::Create(
        1,
        MultiAddress::Index,
        MultiAddress::Index,
        MultiAddress::Index,
    );
    let mut dest: Vec<u8> = vec![0xaa, 0xbb];
    call.encode_to(&mut dest);
    assert_eq!(dest, vec![0xaa, 0xbb, 6, 0x04, 1, 1, 1]);
}

#[test]
fn encoding_is_the_same_on_every_call() {
    let who = alice();
    let first = RelayChainCall::create_pool(123_456_789, MultiAddress::Id(who)).encode();
    let second = RelayChainCall::create_pool(123_456_789, MultiAddress::Id(who)).encode();
    assert_eq!(first, second);
    let call = RelayChainCall::create_pool(123_456_789, MultiAddress::Id(who));
    assert_eq!(call.encode(), call.encode());
    assert_eq!(call.encode(), first);
}

#[test]
fn compact_single_byte_mode() {
    assert_eq!(compact_of(0), vec![0x00]);
    assert_eq!(compact_of(1), vec![0x04]);
    assert_eq!(compact_of(42), vec![0xa8]);
    assert_eq!(compact_of(63), vec![0xfc]);
}

#[test]
fn compact_two_byte_mode() {
    assert_eq!(compact_of(64), vec![0x01, 0x01]);
    assert_eq!(compact_of(69), vec![0x15, 0x01]);
    assert_eq!(compact_of(1_000), vec![0xa1, 0x0f]);
    assert_eq!(compact_of(16_383), vec![0xfd, 0xff]);
}

#[test]
fn compact_four_byte_mode() {
    assert_eq!(compact_of(16_384), vec![0x02, 0x00, 0x01, 0x00]);
    assert_eq!(compact_of(1_073_741_823), vec![0xfe, 0xff, 0xff, 0xff]);
}

#[test]
fn compact_big_integer_mode() {
    assert_eq!(compact_of(1_073_741_824), vec![0x03, 0x00, 0x00, 0x00, 0x40]);
    assert_eq!(compact_of(u32::MAX as u128), vec![0x03, 0xff, 0xff, 0xff, 0xff]);
    assert_eq!(
        compact_of(1_000_000_000_000),
        vec![0x07, 0x00, 0x10, 0xa5, 0xd4, 0xe8]
    );
    let mut expected = vec![0x13];
    expected.extend_from_slice(&[0xff; 8]);
    assert_eq!(compact_of(u64::MAX as u128), expected);
    let mut expected = vec![0x33];
    expected.extend_from_slice(&[0xff; 16]);
    assert_eq!(compact_of(u128::MAX), expected);
}

#[test]
fn compact_agrees_with_the_codec() {
    let mut amount: u128 = 1;
    for _ in 0..128 {
        for probe in [amount - 1, amount, amount + (amount - 1) / 2] {
            assert_eq!(compact_of(probe), Compact(probe).encode());
        }
        amount = amount.wrapping_mul(2);
        if amount == 0 {
            break;
        }
    }
    assert_eq!(compact_of(u128::MAX), Compact(u128::MAX).encode());
}

#[test]
fn every_address_format_is_written_behind_its_index() {
    let who = alice();
    let call = NominationPoolsCall::Create(
        5,
        MultiAddress::Raw(vec![1, 2, 3]),
        MultiAddress::Address32([8u8; 32]),
        MultiAddress::Address20([9u8; 20]),
    );
    let mut expected: Vec<u8> = vec![6, 0x14];
    expected.extend_from_slice(&[2, 0x0c, 1, 2, 3]);
    expected.push(3);
    expected.extend_from_slice(&[8u8; 32]);
    expected.push(4);
    expected.extend_from_slice(&[9u8; 20]);
    assert_eq!(call.encode(), expected);

    let call = NominationPoolsCall::Create(
        5,
        MultiAddress::Index,
        MultiAddress::Id(who),
        MultiAddress::Raw(Vec::new()),
    );
    let mut expected: Vec<u8> = vec![6, 0x14, 1, 0];
    expected.extend_from_slice(&who.0);
    expected.extend_from_slice(&[2, 0]);
    assert_eq!(call.encode(), expected);
}

#[test]
fn raw_address_length_is_compact() {
    let raw: Vec<u8> = (0..200u8).collect();
    let call = NominationPoolsCall::Create(
        0,
        MultiAddress::Raw(raw.clone()),
        MultiAddress::Index,
        MultiAddress::Index,
    );
    let mut expected: Vec<u8> = vec![6, 0, 2, 0x21, 0x03];
    expected.extend_from_slice(&raw);
    expected.extend_from_slice(&[1, 1]);
    assert_eq!(call.encode(), expected);
    let reference = (
        6u8,
        Compact(0u128),
        sp_runtime::MultiAddress::<sp_runtime::AccountId32, ()>::Raw(raw),
        sp_runtime::MultiAddress::<sp_runtime::AccountId32, ()>::Index(()),
        sp_runtime::MultiAddress::<sp_runtime::AccountId32, ()>::Index(()),
    )
        .encode();
    assert_eq!(call.encode(), reference);
}

#[test]
fn address_clone_keeps_the_address() {
    for address in [
        MultiAddress::Id(alice()),
        MultiAddress::Index,
        MultiAddress::Raw(vec![4, 5, 6]),
        MultiAddress::Address32([1u8; 32]),
        MultiAddress::Address20([2u8; 20]),
    ] {
        assert_eq!(address.clone(), address);
    }
}

#[test]
fn create_pool_length_follows_the_compact_amount() {
    let who = alice();
    for (amount, compact_len) in [
        (0u128, 1usize),
        (63, 1),
        (64, 2),
        (16_383, 2),
        (16_384, 4),
        (1_073_741_823, 4),
        (1_073_741_824, 5),
        (u32::MAX as u128, 5),
        (u32::MAX as u128 + 1, 6),
        (u64::MAX as u128, 9),
        (u64::MAX as u128 + 1, 10),
        (u128::MAX, 17),
    ] {
        let bytes = RelayChainCall::create_pool(amount, MultiAddress::Id(who)).encode();
        assert_eq!(bytes.len(), 2 + compact_len + 99);
    }
}

#[test]
fn addresses_of_ordinary_length_can_be_written() {
    for address in [
        MultiAddress::Id(alice()),
        MultiAddress::Index,
        MultiAddress::Raw(Vec::new()),
        MultiAddress::Raw(vec![0u8; 70_000]),
        MultiAddress::Address32([1u8; 32]),
        MultiAddress::Address20([2u8; 20]),
    ] {
        assert!(address.is_encodable());
        let inner = NominationPoolsCall::Create(1, address.clone(), address.clone(), address);
        assert!(inner.is_encodable());
        assert!(RelayChainCall::NominationPools(inner).is_encodable());
    }
}

#[test]
fn long_raw_address_has_a_four_byte_length() {
    let raw = vec![0x5au8; 70_000];
    let call = NominationPoolsCall::Create(
        0,
        MultiAddress::Raw(raw.clone()),
        MultiAddress::Index,
        MultiAddress::Index,
    );
    let bytes = call.encode();
    assert_eq!(&bytes[..7], &[6, 0, 2, 0xc2, 0x45, 0x04, 0x00]);
    assert_eq!(&bytes[7..70_007], &raw[..]);
    assert_eq!(&bytes[70_007..], &[1, 1]);
}

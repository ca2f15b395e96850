//! The SCALE byte format for integers: fixed-width little-endian and compact.

use parity_scale_codec::Encode;
use vstd::prelude::*;

verus! {

/// The `n` low-order bytes of `v`, least significant byte first.
pub open spec fn le_bytes(v: nat, n: nat) -> Seq<u8>
    decreases n,
{
    if n == 0 {
        Seq::empty()
    } else {
        seq![(v % 256) as u8] + le_bytes(v / 256, (n - 1) as nat)
    }
}

/// The number that `bytes` stand for, least significant byte first.
pub open spec fn le_value(bytes: Seq<u8>) -> nat
    decreases bytes.len(),
{
    if bytes.len() == 0 {
        0
    } else {
        bytes[0] as nat + 256 * le_value(bytes.drop_first())
    }
}

/// 256 to the power `n`: the number of values that `n` bytes can take.
pub open spec fn pow256(n: nat) -> nat
    decreases n,
{
    if n == 0 {
        1
    } else {
        256 * pow256((n - 1) as nat)
    }
}

/// The number of bytes that `v` takes without leading zero bytes.
pub open spec fn byte_len(v: nat) -> nat
    decreases v,
{
    if v == 0 {
        0
    } else {
        1 + byte_len(v / 256)
    }
}

/// The compact encoding of `v`.
///
/// The two low bits of the first byte select the mode. Values below 2^6,
/// 2^14 and 2^30 are shifted left by two bits, tagged with 0, 1 or 2 and
/// written in one, two or four little-endian bytes. Larger values are
/// written as a byte holding the tag 3 and, in its upper six bits, the
/// number of value bytes less four, followed by the value bytes, least
/// significant first and without leading zero bytes.
pub open spec fn compact(v: nat) -> Seq<u8> {
    if v < 0x40 {
        seq![(4 * v) as u8]
    } else if v < 0x4000 {
        le_bytes(4 * v + 1, 2)
    } else if v < 0x4000_0000 {
        le_bytes(4 * v + 2, 4)
    } else {
        seq![(4 * (byte_len(v) - 4) + 3) as u8] + le_bytes(v, byte_len(v))
    }
}

/// The number of bytes of the compact encoding of `v`.
pub open spec fn compact_len(v: nat) -> nat {
    if v < 0x40 {
        1
    } else if v < 0x4000 {
        2
    } else if v < 0x4000_0000 {
        4
    } else {
        byte_len(v) + 1
    }
}

/// Compact encoding of a 128-bit integer, by `parity_scale_codec`'s
/// `Encode::encode` on `Compact<u128>`.
///
/// Trusted: the bytes returned are exactly [`compact`] of the value.
#[verifier::external_body]
pub(crate) fn compact_u128(v: u128) -> (out: Vec<u8>)
    ensures
        out@ == compact(v as nat),
{
    parity_scale_codec::Compact(v).encode()
}

/// Sixteen bytes take exactly the values of a 128-bit integer.
pub proof fn lemma_pow256_sixteen()
    ensures
        pow256(16) == u128::MAX + 1,
{
    reveal_with_fuel(pow256, 5);
    assert(pow256(4) == 0x1_0000_0000);
    assert(pow256(8) == 0x1_0000_0000 * pow256(4));
    assert(pow256(12) == 0x1_0000_0000 * pow256(8));
    assert(pow256(16) == 0x1_0000_0000 * pow256(12));
}

/// A number takes at most `n` bytes exactly when `n` bytes can hold it.
pub proof fn lemma_byte_len_bounds(v: nat, n: nat)
    ensures
        v < pow256(n) <==> byte_len(v) <= n,
    decreases n,
{
    if n > 0 {
        lemma_byte_len_bounds(v / 256, (n - 1) as nat);
    }
}

/// The compact encoding of a 128-bit integer is 1 to 17 bytes long, as
/// [`compact_len`] says. In the last mode the value takes 4 to 16 bytes, so
/// that their number less four fits the upper six bits of the first byte.
pub proof fn lemma_compact_len(v: u128)
    ensures
        compact(v as nat).len() == compact_len(v as nat),
        1 <= compact_len(v as nat) <= 17,
        v >= 0x4000_0000 ==> 4 <= byte_len(v as nat) <= 16,
{
    lemma_le_bytes_len(4 * v as nat + 1, 2);
    lemma_le_bytes_len(4 * v as nat + 2, 4);
    lemma_le_bytes_len(v as nat, byte_len(v as nat));
    lemma_pow256_sixteen();
    lemma_byte_len_bounds(v as nat, 16);
    lemma_byte_len_bounds(v as nat, 3);
    reveal_with_fuel(pow256, 4);
}

/// Known encodings, one or more in each mode, among them the examples of
/// the format's documentation.
pub proof fn lemma_compact_examples()
    ensures
        compact(0) == seq![0x00u8],
        compact(1) == seq![0x04u8],
        compact(42) == seq![0xa8u8],
        compact(63) == seq![0xfcu8],
        compact(64) == seq![0x01u8, 0x01u8],
        compact(69) == seq![0x15u8, 0x01u8],
        compact(1_000) == seq![0xa1u8, 0x0fu8],
        compact(16_383) == seq![0xfdu8, 0xffu8],
        compact(16_384) == seq![0x02u8, 0x00u8, 0x01u8, 0x00u8],
        compact(65_535) == seq![0xfeu8, 0xffu8, 0x03u8, 0x00u8],
        compact(1_073_741_823) == seq![0xfeu8, 0xffu8, 0xffu8, 0xffu8],
        compact(1_073_741_824) == seq![0x03u8, 0x00u8, 0x00u8, 0x00u8, 0x40u8],
        compact(100_000_000_000_000) == seq![
            0x0bu8,
            0x00u8,
            0x40u8,
            0x7au8,
            0x10u8,
            0xf3u8,
            0x5au8,
        ],
{
    reveal_with_fuel(le_bytes, 7);
    reveal_with_fuel(byte_len, 7);
    assert(compact(0) =~= seq![0x00u8]);
    assert(compact(1) =~= seq![0x04u8]);
    assert(compact(42) =~= seq![0xa8u8]);
    assert(compact(63) =~= seq![0xfcu8]);
    assert(compact(64) =~= seq![0x01u8, 0x01u8]);
    assert(compact(69) =~= seq![0x15u8, 0x01u8]);
    assert(compact(1_000) =~= seq![0xa1u8, 0x0fu8]);
    assert(compact(16_383) =~= seq![0xfdu8, 0xffu8]);
    assert(compact(16_384) =~= seq![0x02u8, 0x00u8, 0x01u8, 0x00u8]);
    assert(compact(65_535) =~= seq![0xfeu8, 0xffu8, 0x03u8, 0x00u8]);
    assert(compact(1_073_741_823) =~= seq![0xfeu8, 0xffu8, 0xffu8, 0xffu8]);
    assert(byte_len(1_073_741_824) == 4);
    assert(compact(1_073_741_824) =~= seq![0x03u8, 0x00u8, 0x00u8, 0x00u8, 0x40u8]);
    assert(byte_len(100_000_000_000_000) == 6);
    assert(compact(100_000_000_000_000) =~= seq![
        0x0bu8,
        0x00u8,
        0x40u8,
        0x7au8,
        0x10u8,
        0xf3u8,
        0x5au8,
    ]);
}

/// Writing `n` bytes gives `n` bytes.
pub proof fn lemma_le_bytes_len(v: nat, n: nat)
    ensures
        le_bytes(v, n).len() == n,
    decreases n,
{
    if n > 0 {
        lemma_le_bytes_len(v / 256, (n - 1) as nat);
    }
}

/// A number that `n` bytes can hold is read back from its `n` bytes.
pub proof fn lemma_le_value_of_le_bytes(v: nat, n: nat)
    requires
        v < pow256(n),
    ensures
        le_value(le_bytes(v, n)) == v,
    decreases n,
{
    if n > 0 {
        let rest = le_bytes(v / 256, (n - 1) as nat);
        assert(le_bytes(v, n).drop_first() =~= rest);
        lemma_le_value_of_le_bytes(v / 256, (n - 1) as nat);
    }
}

/// Numbers that `n` bytes can hold and that are written as the same `n`
/// bytes are the same number.
pub proof fn lemma_le_bytes_injective(a: nat, b: nat, n: nat)
    requires
        a < pow256(n),
        b < pow256(n),
        le_bytes(a, n) == le_bytes(b, n),
    ensures
        a == b,
{
    lemma_le_value_of_le_bytes(a, n);
    lemma_le_value_of_le_bytes(b, n);
}

/// 128-bit integers with the same compact encoding are the same integer.
pub proof fn lemma_compact_injective(a: u128, b: u128)
    requires
        compact(a as nat) == compact(b as nat),
    ensures
        a == b,
{
    let x = a as nat;
    let y = b as nat;
    lemma_compact_len(a);
    lemma_compact_len(b);
    reveal_with_fuel(pow256, 5);
    if x < 0x40 {
        assert(compact(x)[0] == compact(y)[0]);
    } else if x < 0x4000 {
        lemma_le_bytes_injective(4 * x + 1, 4 * y + 1, 2);
    } else if x < 0x4000_0000 {
        lemma_le_bytes_injective(4 * x + 2, 4 * y + 2, 4);
    } else {
        let n = byte_len(x);
        lemma_byte_len_bounds(x, n);
        lemma_byte_len_bounds(y, n);
        assert(le_bytes(x, n) =~= compact(x).skip(1));
        assert(le_bytes(y, n) =~= compact(y).skip(1));
        lemma_le_bytes_injective(x, y, n);
    }
}

/// Leaving out low-order bytes does not make the number larger.
pub proof fn lemma_le_value_skip(bytes: Seq<u8>, i: int)
    requires
        0 <= i <= bytes.len(),
    ensures
        le_value(bytes.skip(i)) <= le_value(bytes),
    decreases i,
{
    if i == 0 {
        assert(bytes.skip(0) =~= bytes);
    } else {
        assert(bytes.skip(i) =~= bytes.drop_first().skip(i - 1));
        lemma_le_value_skip(bytes.drop_first(), i - 1);
    }
}

} // verus!

//! Local balances, and their narrowing to the integer width used on the wire.

use crate::codec::{
    le_bytes, le_value, lemma_le_value_of_le_bytes, lemma_le_value_skip, lemma_pow256_sixteen,
};
use crate::error::Error;
use vstd::prelude::*;

verus! {

/// An unsigned local balance of any width: its bytes, least significant
/// first. Trailing zero bytes do not change the balance.
#[derive(Debug)]
pub struct Balance {
    pub bytes: Vec<u8>,
}

impl View for Balance {
    type V = nat;

    /// The number that the balance stands for.
    open spec fn view(&self) -> nat {
        le_value(self.bytes@)
    }
}

impl Clone for Balance {
    fn clone(&self) -> (copy: Balance)
        ensures
            copy.bytes@ == self.bytes@,
            copy@ == self@,
    {
        Balance { bytes: self.bytes.clone() }
    }
}

impl Balance {
    /// The bytes of the balance that a wire amount widens to.
    pub open spec fn wire_bytes(amount: u128) -> Seq<u8> {
        le_bytes(amount as nat, 16)
    }

    /// The amount on the wire of a balance that fits there, and the refusal
    /// of one that does not.
    pub open spec fn spec_to_wire_amount(self) -> Result<u128, Error> {
        if self@ <= u128::MAX {
            Ok(self@ as u128)
        } else {
            Err(Error::FailedToConvertBalance)
        }
    }

    /// The balance with the given bytes, least significant first.
    pub fn from_le_bytes(bytes: Vec<u8>) -> (balance: Balance)
        ensures
            balance.bytes@ == bytes@,
            balance@ == le_value(bytes@),
    {
        Balance { bytes }
    }

    /// Widens a wire amount to the balance of the same value.
    pub fn from_wire(amount: u128) -> (balance: Balance)
        ensures
            balance.bytes@ == Balance::wire_bytes(amount),
            balance@ == amount,
    {
        let mut bytes: Vec<u8> = Vec::new();
        let mut rest: u128 = amount;
        let mut written: usize = 0;
        while written < 16
            invariant
                written <= 16,
                bytes@.len() == written,
                bytes@ + le_bytes(rest as nat, (16 - written) as nat) == le_bytes(amount as nat, 16),
            decreases 16 - written,
        {
            let ghost before = bytes@;
            let ghost left = (16 - written) as nat;
            bytes.push((rest % 256) as u8);
            proof {
                assert(le_bytes(rest as nat, left) == seq![(rest as nat % 256) as u8] + le_bytes(
                    rest as nat / 256,
                    (left - 1) as nat,
                ));
                assert(bytes@ + le_bytes(rest as nat / 256, (left - 1) as nat) =~= before
                    + le_bytes(rest as nat, left));
            }
            rest = rest / 256;
            written = written + 1;
        }
        proof {
            assert(bytes@ =~= bytes@ + le_bytes(rest as nat, 0));
            lemma_pow256_sixteen();
            lemma_le_value_of_le_bytes(amount as nat, 16);
        }
        Balance { bytes }
    }

    /// Narrows the balance to the wire integer. A balance above the largest
    /// wire integer is refused, never truncated.
    pub fn to_wire_amount(&self) -> (r: Result<u128, Error>)
        ensures
            r == self.spec_to_wire_amount(),
            self@ <= u128::MAX ==> r == Ok::<u128, Error>(self@ as u128),
            self@ > u128::MAX ==> r == Err::<u128, Error>(Error::FailedToConvertBalance),
    {
        let mut amount: u128 = 0;
        let mut i: usize = self.bytes.len();
        proof {
            assert(self.bytes@.skip(i as int) =~= Seq::<u8>::empty());
        }
        while i > 0
            invariant
                i <= self.bytes@.len(),
                amount as nat == le_value(self.bytes@.skip(i as int)),
            decreases i,
        {
            i = i - 1;
            let byte: u8 = self.bytes[i];
            proof {
                let tail = self.bytes@.skip(i as int);
                assert(tail[0] == byte);
                assert(tail.drop_first() =~= self.bytes@.skip(i + 1));
                assert(le_value(tail) == byte as nat + 256 * amount as nat);
                lemma_le_value_skip(self.bytes@, i as int);
            }
            if amount > 0x00ff_ffff_ffff_ffff_ffff_ffff_ffff_ffff {
                return Err(Error::FailedToConvertBalance);
            }
            amount = amount * 256 + byte as u128;
        }
        proof {
            assert(self.bytes@.skip(0) =~= self.bytes@);
        }
        Ok(amount)
    }
}

/// A balance that fits the wire is narrowed to an amount that widens to a
/// balance of the same value.
pub proof fn lemma_wire_round_trip(a: Balance)
    requires
        a@ <= u128::MAX,
    ensures
        a.spec_to_wire_amount() is Ok,
        le_value(Balance::wire_bytes(a.spec_to_wire_amount()->Ok_0)) == a@,
{
    lemma_pow256_sixteen();
    lemma_le_value_of_le_bytes(a@, 16);
}

/// The balance that a wire amount widens to is narrowed to that amount.
pub proof fn lemma_widened_amount_narrows(amount: u128, a: Balance)
    requires
        a.bytes@ == Balance::wire_bytes(amount),
    ensures
        a.spec_to_wire_amount() == Ok::<u128, Error>(amount),
{
    lemma_pow256_sixteen();
    lemma_le_value_of_le_bytes(amount as nat, 16);
}

} // verus!

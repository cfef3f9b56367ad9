//! Unsigned 256-bit amounts.
//!
//! An amount is four 64-bit words, least significant first, which is how
//! `primitive_types::U256` stores a number. Its view is the number itself.

use sails_rs::prelude::U256;
use vstd::prelude::*;

verus! {

/// Two to the power of 64: the weight of the second word.
pub open spec fn word_base() -> nat {
    0x1_0000_0000_0000_0000nat
}

/// The largest number that an amount can hold, two to the power of 256 less one.
pub open spec fn max_amount() -> nat {
    0xffff_ffff_ffff_ffff_ffff_ffff_ffff_ffff_ffff_ffff_ffff_ffff_ffff_ffff_ffff_ffffnat
}

/// The number that four words stand for, least significant word first.
pub open spec fn words_value(limbs: Seq<u64>) -> nat
    recommends
        limbs.len() == 4,
{
    (limbs[0] as nat) + word_base() * ((limbs[1] as nat) + word_base() * ((limbs[2] as nat)
        + word_base() * (limbs[3] as nat)))
}

/// An unsigned 256-bit number.
#[derive(Clone, Copy, Debug, PartialEq, Eq)]
pub struct Amount {
    pub limbs: [u64; 4],
}

impl View for Amount {
    type V = nat;

    open spec fn view(&self) -> nat {
        words_value(self.limbs@)
    }
}

/// `U256::checked_add` of `primitive_types` on the two numbers: the sum where
/// it fits in 256 bits, nothing where it does not.
#[verifier::external_body]
fn u256_checked_add(a: Amount, b: Amount) -> (sum: Option<Amount>)
    ensures
        a@ + b@ <= max_amount() ==> sum.is_some() && sum.unwrap()@ == a@ + b@,
        a@ + b@ > max_amount() ==> sum.is_none(),
{
    match U256(a.limbs).checked_add(U256(b.limbs)) {
        Some(U256(limbs)) => Some(Amount { limbs }),
        None => None,
    }
}

/// `U256::checked_sub` of `primitive_types` on the two numbers: the difference
/// where the second is no larger than the first, nothing where it is.
#[verifier::external_body]
fn u256_checked_sub(a: Amount, b: Amount) -> (difference: Option<Amount>)
    ensures
        b@ <= a@ ==> difference.is_some() && difference.unwrap()@ == a@ - b@,
        b@ > a@ ==> difference.is_none(),
{
    match U256(a.limbs).checked_sub(U256(b.limbs)) {
        Some(U256(limbs)) => Some(Amount { limbs }),
        None => None,
    }
}

/// `U256::is_zero` of `primitive_types`: whether the number is zero.
#[verifier::external_body]
fn u256_is_zero(a: Amount) -> (zero: bool)
    ensures
        zero == (a@ == 0),
{
    U256(a.limbs).is_zero()
}

impl Amount {
    /// The amount made of the given words, least significant first.
    pub fn from_limbs(limbs: [u64; 4]) -> (amount: Amount)
        ensures
            amount.limbs == limbs,
            amount@ == words_value(limbs@),
    {
        Amount { limbs }
    }

    /// The amount zero.
    pub fn zero() -> (amount: Amount)
        ensures
            amount@ == 0,
    {
        Amount { limbs: [0u64, 0u64, 0u64, 0u64] }
    }

    /// The amount equal to the given 128-bit number.
    pub fn from_u128(value: u128) -> (amount: Amount)
        ensures
            amount@ == value,
    {
        let low: u64 = (value & 0xffff_ffff_ffff_ffff) as u64;
        let high: u64 = (value >> 64) as u64;
        assert(value == (value & 0xffff_ffff_ffff_ffff) + 0x1_0000_0000_0000_0000 * (value >> 64))
            by (bit_vector);
        assert((value & 0xffff_ffff_ffff_ffff) <= 0xffff_ffff_ffff_ffff) by (bit_vector);
        assert((value >> 64) <= 0xffff_ffff_ffff_ffff) by (bit_vector);
        Amount { limbs: [low, high, 0u64, 0u64] }
    }

    /// Whether the amount is zero.
    pub fn is_zero(&self) -> (zero: bool)
        ensures
            zero == (self@ == 0),
    {
        u256_is_zero(*self)
    }

    /// The sum of the two amounts, or nothing where it exceeds 256 bits.
    pub fn checked_add(self, other: Amount) -> (sum: Option<Amount>)
        ensures
            sum.is_some() <==> self@ + other@ <= max_amount(),
            sum.is_some() ==> sum.unwrap()@ == self@ + other@,
    {
        u256_checked_add(self, other)
    }

    /// The first amount less the second, or nothing where the second is larger.
    pub fn checked_sub(self, other: Amount) -> (difference: Option<Amount>)
        ensures
            difference.is_some() <==> other@ <= self@,
            difference.is_some() ==> difference.unwrap()@ == self@ - other@,
    {
        u256_checked_sub(self, other)
    }

    /// Two amounts that stand for the same number have the same words.
    pub proof fn lemma_view_injective(self, other: Amount)
        ensures
            self@ == other@ <==> self == other,
    {
        if self@ == other@ {
            assert(self.limbs =~= other.limbs);
        }
    }
}

} // verus!

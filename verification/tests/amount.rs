use signless_ledger::account::AccountId;
use signless_ledger::amount::Amount;

#[test]
fn zero_is_zero() {
    assert!(Amount::zero().is_zero());
    assert_eq!(Amount::zero(), Amount::from_u128(0));
    assert_eq!(Amount::zero().limbs, [0, 0, 0, 0]);
}

#[test]
fn one_is_not_zero() {
    assert!(!Amount::from_u128(1).is_zero());
    assert!(!Amount::from_limbs([0, 0, 0, 1]).is_zero());
}

#[test]
fn from_u128_splits_into_two_words() {
    let amount = Amount::from_u128(u128::MAX);
    assert_eq!(amount.limbs, [u64::MAX, u64::MAX, 0, 0]);
    let amount = Amount::from_u128((7u128 << 64) + 5);
    assert_eq!(amount.limbs, [5, 7, 0, 0]);
}

#[test]
fn checked_add_adds() {
    let sum = Amount::from_u128(100).checked_add(Amount::from_u128(23));
    assert_eq!(sum, Some(Amount::from_u128(123)));
}

#[test]
fn checked_add_carries_into_the_next_word() {
    let sum = Amount::from_limbs([u64::MAX, 0, 0, 0]).checked_add(Amount::from_u128(1));
    assert_eq!(sum, Some(Amount::from_limbs([0, 1, 0, 0])));
    let sum = Amount::from_limbs([u64::MAX, u64::MAX, u64::MAX, 0]).checked_add(Amount::from_u128(1));
    assert_eq!(sum, Some(Amount::from_limbs([0, 0, 0, 1])));
}

#[test]
fn checked_add_reaches_the_maximum() {
    let below = Amount::from_limbs([u64::MAX - 1, u64::MAX, u64::MAX, u64::MAX]);
    let sum = below.checked_add(Amount::from_u128(1));
    assert_eq!(sum, Some(Amount::from_limbs([u64::MAX; 4])));
}

#[test]
fn checked_add_beyond_the_maximum_is_none() {
    let max = Amount::from_limbs([u64::MAX; 4]);
    assert_eq!(max.checked_add(Amount::from_u128(1)), None);
    assert_eq!(max.checked_add(max), None);
}

#[test]
fn checked_sub_subtracts() {
    let rest = Amount::from_u128(100).checked_sub(Amount::from_u128(23));
    assert_eq!(rest, Some(Amount::from_u128(77)));
    let rest = Amount::from_u128(100).checked_sub(Amount::from_u128(100));
    assert_eq!(rest, Some(Amount::zero()));
}

#[test]
fn checked_sub_borrows_from_the_next_word() {
    let rest = Amount::from_limbs([0, 1, 0, 0]).checked_sub(Amount::from_u128(1));
    assert_eq!(rest, Some(Amount::from_limbs([u64::MAX, 0, 0, 0])));
}

#[test]
fn checked_sub_below_zero_is_none() {
    assert_eq!(Amount::from_u128(100).checked_sub(Amount::from_u128(101)), None);
    assert_eq!(Amount::zero().checked_sub(Amount::from_limbs([0, 0, 0, 1])), None);
}

#[test]
fn account_ids_compare_by_bytes() {
    let a = AccountId::new([7; 32]);
    let b = AccountId::new([7; 32]);
    let mut bytes = [7u8; 32];
    bytes[31] = 8;
    let c = AccountId::new(bytes);
    assert_eq!(a, b);
    assert_ne!(a, c);
    assert_eq!(c.into_bytes(), bytes);
    assert_eq!(AccountId::zero(), AccountId::new([0; 32]));
}

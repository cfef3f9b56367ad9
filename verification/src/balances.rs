//! Token balances by account.

use crate::account::AccountId;
use crate::amount::Amount;
use sails_rs::collections::HashMap;
use sails_rs::prelude::{ActorId, U256};
use vstd::prelude::*;

verus! {

/// The balance of each account that holds tokens: a `hashbrown::HashMap`
/// from `ActorId` to `U256`.
#[verifier::external_body]
pub struct BalancesMap {
    inner: HashMap<ActorId, U256>,
}

/// The balances that a map holds, by the bytes of the owning account.
pub uninterp spec fn balance_entries(balances: BalancesMap) -> Map<Seq<u8>, nat>;

/// `HashMap::new` of `hashbrown`: a map that holds nothing.
#[verifier::external_body]
fn balances_new() -> (created: BalancesMap)
    ensures
        balance_entries(created) == (Map::<Seq<u8>, nat>::empty()),
{
    BalancesMap { inner: HashMap::new() }
}

/// `HashMap::get` of `hashbrown`: the balance stored under the account, if any.
#[verifier::external_body]
pub(crate) fn balances_get(balances: &BalancesMap, owner: &AccountId) -> (found: Option<Amount>)
    ensures
        found.is_some() == balance_entries(*balances).contains_key(owner@),
        found.is_some() ==> found.unwrap()@ == balance_entries(*balances)[owner@],
{
    match balances.inner.get(&ActorId::new(owner.bytes)) {
        Some(U256(limbs)) => Some(Amount { limbs: *limbs }),
        None => None,
    }
}

/// `HashMap::insert` of `hashbrown`: the balance is stored under the account,
/// in place of the one that was there, and no other entry changes.
#[verifier::external_body]
pub(crate) fn balances_insert(balances: &mut BalancesMap, owner: &AccountId, value: Amount)
    ensures
        balance_entries(*final(balances)) == balance_entries(*old(balances)).insert(
            owner@,
            value@,
        ),
{
    balances.inner.insert(ActorId::new(owner.bytes), U256(value.limbs));
}

/// `HashMap::remove` of `hashbrown`: the account's entry leaves the map, and
/// no other entry changes.
#[verifier::external_body]
pub(crate) fn balances_remove(balances: &mut BalancesMap, owner: &AccountId)
    ensures
        balance_entries(*final(balances)) == balance_entries(*old(balances)).remove(owner@),
{
    balances.inner.remove(&ActorId::new(owner.bytes));
}

impl View for BalancesMap {
    type V = Map<Seq<u8>, nat>;

    open spec fn view(&self) -> Map<Seq<u8>, nat> {
        balance_entries(*self)
    }
}

impl BalancesMap {
    /// A map in which no account holds anything.
    pub fn new() -> (created: BalancesMap)
        ensures
            created@ == (Map::<Seq<u8>, nat>::empty()),
    {
        balances_new()
    }

    /// Stores `value` as the balance of `owner`, in place of the one that
    /// was there.
    pub fn insert(&mut self, owner: &AccountId, value: Amount)
        ensures
            final(self)@ == old(self)@.insert(owner@, value@),
    {
        balances_insert(self, owner, value);
    }

    /// Whether the map holds an entry for `owner`.
    pub fn has_entry(&self, owner: &AccountId) -> (held: bool)
        ensures
            held == self@.contains_key(owner@),
    {
        balances_get(self, owner).is_some()
    }
}

/// The balance that `entries` gives `owner`: its entry, or zero without one.
pub open spec fn balance_in(entries: Map<Seq<u8>, nat>, owner: Seq<u8>) -> nat {
    if entries.contains_key(owner) {
        entries[owner]
    } else {
        0
    }
}

/// The balance of `owner`: what the map holds for it, or zero where it holds
/// nothing.
pub fn balance_of(balances: &BalancesMap, owner: AccountId) -> (balance: Amount)
    ensures
        balance@ == balance_in(balances@, owner@),
{
    match balances_get(balances, &owner) {
        Some(balance) => balance,
        None => Amount::zero(),
    }
}

} // verus!

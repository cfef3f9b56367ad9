//! The sum of the balances that a map holds, and how a change of one entry
//! changes it.

use crate::balances::balance_in;
use vstd::prelude::*;

verus! {

/// The sum of all balances in a finite map.
pub open spec fn sum_of(entries: Map<Seq<u8>, nat>) -> nat
    decreases entries.dom().len(),
    when entries.dom().finite()
{
    if entries.dom().len() == 0 {
        0
    } else {
        let owner = entries.dom().choose();
        entries[owner] + sum_of(entries.remove(owner))
    }
}

/// The empty map sums to zero.
pub proof fn lemma_sum_empty()
    ensures
        sum_of(Map::<Seq<u8>, nat>::empty()) == 0,
{
    assert(Map::<Seq<u8>, nat>::empty().dom() =~= Set::empty());
}

/// Any entry can be taken out of the sum first.
pub proof fn lemma_sum_remove(entries: Map<Seq<u8>, nat>, owner: Seq<u8>)
    requires
        entries.dom().finite(),
        entries.contains_key(owner),
    ensures
        sum_of(entries) == entries[owner] + sum_of(entries.remove(owner)),
    decreases entries.dom().len(),
{
    let first = entries.dom().choose();
    if first != owner {
        let without_first = entries.remove(first);
        let without_owner = entries.remove(owner);
        lemma_sum_remove(without_first, owner);
        lemma_sum_remove(without_owner, first);
        assert(without_first.remove(owner) =~= without_owner.remove(first));
    }
}

/// A balance is never larger than the sum it is part of.
pub proof fn lemma_sum_bounds_entry(entries: Map<Seq<u8>, nat>, owner: Seq<u8>)
    requires
        entries.dom().finite(),
    ensures
        balance_in(entries, owner) <= sum_of(entries),
{
    if entries.contains_key(owner) {
        lemma_sum_remove(entries, owner);
    }
}

/// Storing a balance changes the sum by the difference to the balance that
/// was there.
pub proof fn lemma_sum_insert(entries: Map<Seq<u8>, nat>, owner: Seq<u8>, balance: nat)
    requires
        entries.dom().finite(),
    ensures
        sum_of(entries.insert(owner, balance)) + balance_in(entries, owner) == sum_of(entries)
            + balance,
{
    let stored = entries.insert(owner, balance);
    lemma_sum_remove(stored, owner);
    if entries.contains_key(owner) {
        lemma_sum_remove(entries, owner);
        assert(stored.remove(owner) =~= entries.remove(owner));
    } else {
        assert(stored.remove(owner) =~= entries);
    }
}

/// Dropping an entry takes its balance out of the sum.
pub proof fn lemma_sum_drop(entries: Map<Seq<u8>, nat>, owner: Seq<u8>)
    requires
        entries.dom().finite(),
    ensures
        sum_of(entries.remove(owner)) + balance_in(entries, owner) == sum_of(entries),
{
    if entries.contains_key(owner) {
        lemma_sum_remove(entries, owner);
    } else {
        assert(entries.remove(owner) =~= entries);
    }
}

} // verus!

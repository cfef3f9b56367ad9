//! The token ledger: balances by account and the total supply, changed only
//! by a checked mint and a checked burn.
//!
//! A mint or a burn either applies in full, to the balance and to the supply,
//! or changes nothing. A ledger that starts empty keeps three properties:
//! it holds finitely many entries, none of them zero, and the supply is the
//! sum of the balances.

use crate::account::AccountId;
use crate::amount::{max_amount, Amount};
use crate::balances::{balance_in, balance_of, balances_insert, balances_remove, BalancesMap};
use crate::error::Error;
use crate::supply::{
    lemma_sum_bounds_entry, lemma_sum_drop, lemma_sum_empty, lemma_sum_insert, sum_of,
};
use vstd::prelude::*;

verus! {

/// What a ledger holds: the balance of each account with an entry, and the
/// total supply.
pub struct LedgerState {
    pub balances: Map<Seq<u8>, nat>,
    pub total_supply: nat,
}

impl LedgerState {
    /// The ledger in which nothing was ever minted.
    pub open spec fn empty() -> LedgerState {
        LedgerState { balances: Map::empty(), total_supply: 0 }
    }

    /// The balance of `owner`: its entry, or zero without one.
    pub open spec fn balance_of(self, owner: Seq<u8>) -> nat {
        balance_in(self.balances, owner)
    }

    /// Finitely many entries, none of them zero, a supply that is their sum
    /// and fits in 256 bits.
    pub open spec fn well_formed(self) -> bool {
        &&& self.balances.dom().finite()
        &&& forall|owner: Seq<u8>| self.balances.contains_key(owner) ==> self.balances[owner] > 0
        &&& self.total_supply == sum_of(self.balances)
        &&& self.total_supply <= max_amount()
    }

    /// What a mint of `value` to `to` answers: `Ok(false)` for a value of
    /// zero, an overflow where the supply or the balance would leave 256
    /// bits, and `Ok(true)` otherwise.
    pub open spec fn mint_outcome(self, to: Seq<u8>, value: nat) -> Result<bool, Error> {
        if value == 0 {
            Ok(false)
        } else if self.total_supply + value > max_amount() || self.balance_of(to) + value
            > max_amount() {
            Err(Error::NumericOverflow)
        } else {
            Ok(true)
        }
    }

    /// The ledger after a mint: supply and balance larger by `value` where
    /// the mint applies, the same ledger where it does not.
    pub open spec fn after_mint(self, to: Seq<u8>, value: nat) -> LedgerState {
        if self.mint_outcome(to, value) matches Ok(true) {
            LedgerState {
                balances: self.balances.insert(to, self.balance_of(to) + value),
                total_supply: self.total_supply + value,
            }
        } else {
            self
        }
    }

    /// What a burn of `value` from `from` answers: `Ok(false)` for a value of
    /// zero, a lack of balance where the account holds less than `value`, an
    /// underflow where the supply is less than `value`, and `Ok(true)`
    /// otherwise.
    pub open spec fn burn_outcome(self, from: Seq<u8>, value: nat) -> Result<bool, Error> {
        if value == 0 {
            Ok(false)
        } else if self.balance_of(from) < value {
            Err(Error::InsufficientBalance)
        } else if self.total_supply < value {
            Err(Error::Underflow)
        } else {
            Ok(true)
        }
    }

    /// The ledger after a burn: supply and balance smaller by `value` where
    /// the burn applies, with the entry gone where nothing is left of the
    /// balance; the same ledger where the burn does not apply.
    pub open spec fn after_burn(self, from: Seq<u8>, value: nat) -> LedgerState {
        if self.burn_outcome(from, value) matches Ok(true) {
            LedgerState {
                balances: if self.balance_of(from) == value {
                    self.balances.remove(from)
                } else {
                    self.balances.insert(from, (self.balance_of(from) - value) as nat)
                },
                total_supply: (self.total_supply - value) as nat,
            }
        } else {
            self
        }
    }
}

/// The ledger made of a balance map and a supply.
pub open spec fn ledger_state(balances: Map<Seq<u8>, nat>, total_supply: nat) -> LedgerState {
    LedgerState { balances, total_supply }
}

/// Creates `value` new tokens for `to`. A value of zero changes nothing and
/// answers `Ok(false)`. Otherwise both the supply and the balance grow by
/// `value` and the answer is `Ok(true)`, unless one of them would overflow:
/// then nothing changes.
pub fn mint(
    balances: &mut BalancesMap,
    total_supply: &mut Amount,
    to: AccountId,
    value: Amount,
) -> (applied: Result<bool, Error>)
    ensures
        applied == ledger_state(old(balances)@, old(total_supply)@).mint_outcome(to@, value@),
        ledger_state(final(balances)@, final(total_supply)@) == ledger_state(
            old(balances)@,
            old(total_supply)@,
        ).after_mint(to@, value@),
        !(applied matches Ok(true)) ==> *final(balances) == *old(balances)
            && *final(total_supply) == *old(total_supply),
        ledger_state(old(balances)@, old(total_supply)@).well_formed() ==> ledger_state(
            final(balances)@,
            final(total_supply)@,
        ).well_formed(),
{
    proof {
        if ledger_state(balances@, total_supply@).well_formed() {
            lemma_mint_keeps_well_formed(ledger_state(balances@, total_supply@), to@, value@);
        }
    }
    if value.is_zero() {
        return Ok(false);
    }
    let new_total_supply = match total_supply.checked_add(value) {
        Some(sum) => sum,
        None => {
            return Err(Error::NumericOverflow);
        },
    };
    let new_to = match balance_of(balances, to).checked_add(value) {
        Some(sum) => sum,
        None => {
            return Err(Error::NumericOverflow);
        },
    };
    balances_insert(balances, &to, new_to);
    *total_supply = new_total_supply;
    Ok(true)
}

/// Destroys `value` tokens of `from`. A value of zero changes nothing and
/// answers `Ok(false)`. Otherwise both the supply and the balance shrink by
/// `value`, an account left with nothing loses its entry, and the answer is
/// `Ok(true)`, unless the account or the supply holds less than `value`:
/// then nothing changes.
pub fn burn(
    balances: &mut BalancesMap,
    total_supply: &mut Amount,
    from: AccountId,
    value: Amount,
) -> (applied: Result<bool, Error>)
    ensures
        applied == ledger_state(old(balances)@, old(total_supply)@).burn_outcome(from@, value@),
        ledger_state(final(balances)@, final(total_supply)@) == ledger_state(
            old(balances)@,
            old(total_supply)@,
        ).after_burn(from@, value@),
        !(applied matches Ok(true)) ==> *final(balances) == *old(balances)
            && *final(total_supply) == *old(total_supply),
        ledger_state(old(balances)@, old(total_supply)@).well_formed() ==> ledger_state(
            final(balances)@,
            final(total_supply)@,
        ).well_formed(),
{
    proof {
        if ledger_state(balances@, total_supply@).well_formed() {
            lemma_burn_keeps_well_formed(ledger_state(balances@, total_supply@), from@, value@);
        }
    }
    if value.is_zero() {
        return Ok(false);
    }
    let new_from = match balance_of(balances, from).checked_sub(value) {
        Some(rest) => rest,
        None => {
            return Err(Error::InsufficientBalance);
        },
    };
    let new_total_supply = match total_supply.checked_sub(value) {
        Some(rest) => rest,
        None => {
            return Err(Error::Underflow);
        },
    };
    if !new_from.is_zero() {
        balances_insert(balances, &from, new_from);
    } else {
        balances_remove(balances, &from);
    }
    *total_supply = new_total_supply;
    Ok(true)
}

/// A mint keeps a well-formed ledger well formed.
pub proof fn lemma_mint_keeps_well_formed(state: LedgerState, to: Seq<u8>, value: nat)
    requires
        state.well_formed(),
    ensures
        state.after_mint(to, value).well_formed(),
{
    if state.mint_outcome(to, value) matches Ok(true) {
        lemma_sum_insert(state.balances, to, state.balance_of(to) + value);
    }
}

/// A burn keeps a well-formed ledger well formed.
pub proof fn lemma_burn_keeps_well_formed(state: LedgerState, from: Seq<u8>, value: nat)
    requires
        state.well_formed(),
    ensures
        state.after_burn(from, value).well_formed(),
{
    if state.burn_outcome(from, value) matches Ok(true) {
        if state.balance_of(from) == value {
            lemma_sum_drop(state.balances, from);
        } else {
            lemma_sum_insert(state.balances, from, (state.balance_of(from) - value) as nat);
        }
    }
}

/// A mint of a value above zero that the supply has room for applies: the
/// balance of the receiver and the supply each grow by exactly the value,
/// and no other balance changes.
pub proof fn lemma_mint_adds_exactly(state: LedgerState, to: Seq<u8>, value: nat)
    requires
        state.well_formed(),
        value > 0,
        state.total_supply + value <= max_amount(),
    ensures
        state.mint_outcome(to, value) matches Ok(true),
        state.after_mint(to, value).balance_of(to) == state.balance_of(to) + value,
        state.after_mint(to, value).total_supply == state.total_supply + value,
        forall|other: Seq<u8>|
            other != to ==> state.after_mint(to, value).balance_of(other) == state.balance_of(
                other,
            ),
{
    lemma_sum_bounds_entry(state.balances, to);
}

/// A burn of a value above zero that the account holds applies: the balance
/// of the account and the supply each shrink by exactly the value, no other
/// balance changes, and the account keeps an entry exactly when something is
/// left of its balance.
pub proof fn lemma_burn_takes_exactly(state: LedgerState, from: Seq<u8>, value: nat)
    requires
        state.well_formed(),
        value > 0,
        value <= state.balance_of(from),
    ensures
        state.burn_outcome(from, value) matches Ok(true),
        state.after_burn(from, value).balance_of(from) == state.balance_of(from) - value,
        state.after_burn(from, value).total_supply == state.total_supply - value,
        forall|other: Seq<u8>|
            other != from ==> state.after_burn(from, value).balance_of(other) == state.balance_of(
                other,
            ),
        state.after_burn(from, value).balances.contains_key(from) <==> state.balance_of(from)
            != value,
{
    lemma_sum_bounds_entry(state.balances, from);
}

/// A mint that would take the supply beyond 256 bits fails with an overflow
/// and leaves the ledger as it was.
pub proof fn lemma_mint_overflow_changes_nothing(state: LedgerState, to: Seq<u8>, value: nat)
    requires
        state.total_supply + value > max_amount(),
        state.total_supply <= max_amount(),
    ensures
        state.mint_outcome(to, value) matches Err(Error::NumericOverflow),
        state.after_mint(to, value) == state,
{
}

/// A burn of more than the account holds fails for lack of balance and
/// leaves the ledger as it was.
pub proof fn lemma_burn_beyond_balance_changes_nothing(
    state: LedgerState,
    from: Seq<u8>,
    value: nat,
)
    requires
        value > state.balance_of(from),
    ensures
        state.burn_outcome(from, value) matches Err(Error::InsufficientBalance),
        state.after_burn(from, value) == state,
{
}

/// In a well-formed ledger the supply covers every balance, so a burn never
/// fails on the supply.
pub proof fn lemma_burn_never_underflows(state: LedgerState, from: Seq<u8>, value: nat)
    requires
        state.well_formed(),
    ensures
        !(state.burn_outcome(from, value) matches Err(Error::Underflow)),
{
    lemma_sum_bounds_entry(state.balances, from);
}

/// The balances and the supply of a token, kept together so that the supply
/// is always the sum of the balances.
pub struct Ledger {
    balances: BalancesMap,
    total_supply: Amount,
}

impl View for Ledger {
    type V = LedgerState;

    closed spec fn view(&self) -> LedgerState {
        ledger_state(self.balances@, self.total_supply@)
    }
}

impl Ledger {
    /// Every ledger is well formed, at all times.
    #[verifier::type_invariant]
    pub open spec fn holds_well_formed_state(self) -> bool {
        self@.well_formed()
    }

    /// A ledger in which nothing was minted yet.
    pub fn new() -> (ledger: Ledger)
        ensures
            ledger@ == LedgerState::empty(),
            ledger@.well_formed(),
    {
        proof {
            lemma_sum_empty();
        }
        Ledger { balances: BalancesMap::new(), total_supply: Amount::zero() }
    }

    /// Moves the ledger out, leaving an empty one in its place, so that the
    /// balances and the supply can be changed together before the ledger is
    /// put back.
    fn take(&mut self) -> (taken: Ledger)
        ensures
            taken == *old(self),
    {
        let mut taken = Ledger::new();
        core::mem::swap(self, &mut taken);
        taken
    }

    /// Moves the balances and the supply out, leaving an empty ledger.
    pub(crate) fn take_parts(&mut self) -> (parts: (BalancesMap, Amount))
        ensures
            ledger_state(parts.0@, parts.1@) == old(self)@,
            old(self)@.well_formed(),
    {
        proof {
            use_type_invariant(&*self);
        }
        let Ledger { balances, total_supply } = self.take();
        (balances, total_supply)
    }

    /// The ledger made of balances and a supply that agree.
    pub(crate) fn from_parts(balances: BalancesMap, total_supply: Amount) -> (ledger: Ledger)
        requires
            ledger_state(balances@, total_supply@).well_formed(),
        ensures
            ledger@ == ledger_state(balances@, total_supply@),
    {
        Ledger { balances, total_supply }
    }

    /// The balance of `owner`, zero where it has no entry.
    pub fn balance_of(&self, owner: AccountId) -> (balance: Amount)
        ensures
            balance@ == self@.balance_of(owner@),
            self@.well_formed(),
    {
        proof {
            use_type_invariant(self);
        }
        balance_of(&self.balances, owner)
    }

    /// Whether the ledger holds an entry for `owner`: whether its balance is
    /// above zero.
    pub fn has_entry(&self, owner: &AccountId) -> (held: bool)
        ensures
            held == self@.balances.contains_key(owner@),
            held == (self@.balance_of(owner@) > 0),
            self@.well_formed(),
    {
        proof {
            use_type_invariant(self);
        }
        self.balances.has_entry(owner)
    }

    /// The total supply: the sum of all balances.
    pub fn total_supply(&self) -> (supply: Amount)
        ensures
            supply@ == self@.total_supply,
            supply@ == sum_of(self@.balances),
            self@.well_formed(),
    {
        proof {
            use_type_invariant(self);
        }
        self.total_supply
    }

    /// Mints `value` to `to`; see [`mint`]. The ledger stays well formed.
    pub fn mint(&mut self, to: AccountId, value: Amount) -> (applied: Result<bool, Error>)
        ensures
            applied == old(self)@.mint_outcome(to@, value@),
            final(self)@ == old(self)@.after_mint(to@, value@),
            final(self)@.well_formed(),
    {
        proof {
            use_type_invariant(&*self);
            lemma_mint_keeps_well_formed(self@, to@, value@);
        }
        let Ledger { mut balances, mut total_supply } = self.take();
        let applied = mint(&mut balances, &mut total_supply, to, value);
        *self = Ledger { balances, total_supply };
        applied
    }

    /// Burns `value` of `from`; see [`burn`]. The ledger stays well formed,
    /// and the burn fails only for lack of balance.
    pub fn burn(&mut self, from: AccountId, value: Amount) -> (applied: Result<bool, Error>)
        ensures
            applied == old(self)@.burn_outcome(from@, value@),
            applied.is_err() <==> value@ > old(self)@.balance_of(from@),
            applied.is_err() ==> applied matches Err(Error::InsufficientBalance),
            final(self)@ == old(self)@.after_burn(from@, value@),
            final(self)@.well_formed(),
    {
        proof {
            use_type_invariant(&*self);
            lemma_burn_keeps_well_formed(self@, from@, value@);
            lemma_burn_never_underflows(self@, from@, value@);
        }
        let Ledger { mut balances, mut total_supply } = self.take();
        let applied = burn(&mut balances, &mut total_supply, from, value);
        *self = Ledger { balances, total_supply };
        applied
    }
}

} // verus!

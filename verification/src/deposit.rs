//! The deposit program: tokens moved into the program are credited to the
//! account that deposited them.
//!
//! A deposit has two phases. The first resolves the depositor and says which
//! transfer to ask of the token program, if any: a deposit of nothing is
//! accepted and changes nothing. The second runs once that transfer has
//! ended, and credits the depositor only where it completed. Credits
//! saturate: the books record receipts and never refuse one.

use crate::account::AccountId;
use crate::error::Error;
use crate::session::{
    get_actor, resolve_actor, ActionsForSession, SessionData, SessionMap, SessionStorage,
};
use sails_rs::collections::HashMap;
use sails_rs::prelude::ActorId;
use vstd::prelude::*;

verus! {

/// What each depositor has paid in: a `hashbrown::HashMap` from `ActorId` to
/// `u128`.
#[verifier::external_body]
pub struct DepositMap {
    inner: HashMap<ActorId, u128>,
}

/// The amounts that a deposit map holds, by the bytes of the depositor.
pub uninterp spec fn deposit_entries(deposits: DepositMap) -> Map<Seq<u8>, u128>;

/// The amount that `entries` records for `owner`: its entry, or zero without
/// one.
pub open spec fn deposited_in(entries: Map<Seq<u8>, u128>, owner: Seq<u8>) -> u128 {
    if entries.contains_key(owner) {
        entries[owner]
    } else {
        0
    }
}

/// Whether `listed` gives every entry of `entries` once, and nothing else.
pub open spec fn lists_entries(
    listed: Seq<(AccountId, u128)>,
    entries: Map<Seq<u8>, u128>,
) -> bool {
    &&& forall|i: int|
        0 <= i < listed.len() ==> entries.contains_key(#[trigger] listed[i].0@)
            && entries[listed[i].0@] == listed[i].1
    &&& forall|owner: Seq<u8>| #[trigger]
        entries.contains_key(owner) ==> exists|i: int|
            0 <= i < listed.len() && listed[i].0@ == owner
    &&& forall|i: int, j: int| 0 <= i < j < listed.len() ==> listed[i].0@ != listed[j].0@
}

/// `HashMap::new` of `hashbrown`: a map that holds nothing.
#[verifier::external_body]
fn deposits_new() -> (created: DepositMap)
    ensures
        deposit_entries(created) == (Map::<Seq<u8>, u128>::empty()),
{
    DepositMap { inner: HashMap::new() }
}

/// `HashMap::get` of `hashbrown`: the amount stored under the account, if any.
#[verifier::external_body]
fn deposits_get(deposits: &DepositMap, owner: &AccountId) -> (found: Option<u128>)
    ensures
        found == (if deposit_entries(*deposits).contains_key(owner@) {
            Some(deposit_entries(*deposits)[owner@])
        } else {
            None
        }),
{
    deposits.inner.get(&ActorId::new(owner.bytes)).copied()
}

/// `HashMap::entry` of `hashbrown`, followed by `Entry::or_default`: the
/// place of the account's amount, which starts at zero where the account had
/// no entry. What is written there is the account's amount afterwards, and
/// no other entry changes.
#[verifier::external_body]
fn deposits_entry_or_default<'a>(
    deposits: &'a mut DepositMap,
    owner: &AccountId,
) -> (slot: &'a mut u128)
    ensures
        *slot == deposited_in(deposit_entries(*old(deposits)), owner@),
        deposit_entries(*final(deposits)) == deposit_entries(*old(deposits)).insert(
            owner@,
            *final(slot),
        ),
{
    deposits.inner.entry(ActorId::new(owner.bytes)).or_default()
}

/// `HashMap::iter` of `hashbrown`, collected: every entry once, in the order
/// in which the map happens to hand them out.
#[verifier::external_body]
fn deposits_to_vec(deposits: &DepositMap) -> (listed: Vec<(AccountId, u128)>)
    ensures
        lists_entries(listed@, deposit_entries(*deposits)),
{
    deposits.inner.iter().map(|(id, held)| (AccountId::new(id.into_bytes()), *held)).collect()
}

impl View for DepositMap {
    type V = Map<Seq<u8>, u128>;

    open spec fn view(&self) -> Map<Seq<u8>, u128> {
        deposit_entries(*self)
    }
}

/// The sum of two amounts, held at the largest 128-bit number where it
/// would exceed it.
pub open spec fn saturating_sum(a: u128, b: u128) -> u128 {
    if a + b > u128::MAX {
        u128::MAX
    } else {
        (a + b) as u128
    }
}

/// What the deposit program holds: the receipts by depositor and their
/// running total.
pub struct DepositState {
    pub user_balances: Map<Seq<u8>, u128>,
    pub total_received: u128,
}

impl DepositState {
    /// The books before the first deposit.
    pub open spec fn empty() -> DepositState {
        DepositState { user_balances: Map::empty(), total_received: 0 }
    }

    /// What `user` has deposited: its entry, or zero without one.
    pub open spec fn balance_of(self, user: Seq<u8>) -> u128 {
        deposited_in(self.user_balances, user)
    }

    /// The books after `amount` was credited to `actor`: unchanged for an
    /// amount of zero, else the actor's receipts and the total each larger
    /// by `amount`, saturating.
    pub open spec fn credited(self, actor: Seq<u8>, amount: u128) -> DepositState {
        if amount == 0 {
            self
        } else {
            DepositState {
                user_balances: self.user_balances.insert(
                    actor,
                    saturating_sum(self.balance_of(actor), amount),
                ),
                total_received: saturating_sum(self.total_received, amount),
            }
        }
    }
}

/// The books of the deposit program.
pub struct ContractState {
    user_balances: DepositMap,
    total_received: u128,
}

impl View for ContractState {
    type V = DepositState;

    closed spec fn view(&self) -> DepositState {
        DepositState { user_balances: self.user_balances@, total_received: self.total_received }
    }
}

/// The books as they are handed out: every depositor with its receipts, in
/// no particular order, and the total.
#[derive(Debug)]
pub struct IoContractState {
    pub user_balances: Vec<(AccountId, u128)>,
    pub total_received: u128,
}

impl ContractState {
    /// The books before the first deposit.
    pub fn init_state() -> (state: ContractState)
        ensures
            state@ == DepositState::empty(),
    {
        ContractState { user_balances: deposits_new(), total_received: 0 }
    }

    /// What `user` has deposited, zero where it has deposited nothing.
    pub fn balance_of(&self, user: &AccountId) -> (balance: u128)
        ensures
            balance == self@.balance_of(user@),
    {
        match deposits_get(&self.user_balances, user) {
            Some(balance) => balance,
            None => 0,
        }
    }

    /// The total of all receipts.
    pub fn total_received(&self) -> (total: u128)
        ensures
            total == self@.total_received,
    {
        self.total_received
    }

    /// Credits `amount` to `actor` and to the total, saturating. An amount of
    /// zero changes nothing and answers `false`.
    pub fn credit(&mut self, actor: &AccountId, amount: u128) -> (applied: bool)
        ensures
            applied == (amount != 0),
            final(self)@ == old(self)@.credited(actor@, amount),
    {
        if amount == 0 {
            return false;
        }
        let entry = deposits_entry_or_default(&mut self.user_balances, actor);
        *entry = entry.saturating_add(amount);
        self.total_received = self.total_received.saturating_add(amount);
        true
    }

    /// The books as they are handed out.
    pub fn snapshot(&self) -> (io: IoContractState)
        ensures
            lists_entries(io.user_balances@, self@.user_balances),
            io.total_received == self@.total_received,
    {
        IoContractState {
            user_balances: deposits_to_vec(&self.user_balances),
            total_received: self.total_received,
        }
    }
}

/// What the deposit program publishes after a credit.
#[derive(Clone, Copy, Debug, PartialEq, Eq)]
pub enum Events {
    Deposited(AccountId, u128),
}

/// A deposit whose depositor is resolved and whose tokens are still to be
/// moved: the token program `token_contract` is to transfer `amount` from
/// `actor` to the deposit program.
#[derive(Clone, Copy, Debug, PartialEq, Eq)]
pub struct PendingDeposit {
    pub token_contract: AccountId,
    pub actor: AccountId,
    pub amount: u128,
}

/// How the transfer asked of the token program ended.
#[derive(Clone, Copy, Debug, PartialEq, Eq, Structural)]
pub enum TransferOutcome {
    /// The token program replied that the tokens were moved.
    Completed,
    /// The request could not be sent.
    SendFailed,
    /// The request was sent, and no successful reply came back.
    ReplyFailed,
}

/// The first phase of a deposit. The depositor is resolved first, and a
/// failing resolution is the answer. For an amount of zero there is then
/// nothing to do: no transfer is asked for and nothing will be credited. For
/// any other amount the transfer to ask for is named.
pub open spec fn deposit_request(
    sessions: Map<Seq<u8>, SessionData>,
    msg_source: AccountId,
    session_for_account: Option<AccountId>,
    now: u64,
    token_contract: AccountId,
    amount: u128,
) -> Result<Option<PendingDeposit>, Error> {
    match resolve_actor(
        sessions,
        msg_source,
        session_for_account,
        ActionsForSession::Deposit,
        now,
    ) {
        Err(error) => Err(error),
        Ok(actor) => if amount == 0 {
            Ok(None)
        } else {
            Ok(Some(PendingDeposit { token_contract, actor, amount }))
        },
    }
}

/// The answer of the second phase of a deposit: a failure where the transfer
/// did not complete, else the event to publish, which is absent where
/// nothing was credited.
pub open spec fn settlement_answer(pending: PendingDeposit, outcome: TransferOutcome) -> Result<
    Option<Events>,
    Error,
> {
    if outcome != TransferOutcome::Completed {
        Err(Error::ExternalCallFailed)
    } else if pending.amount == 0 {
        Ok(None)
    } else {
        Ok(Some(Events::Deposited(pending.actor, pending.amount)))
    }
}

impl DepositState {
    /// The books after the second phase of a deposit: credited where the
    /// transfer completed, untouched where it did not.
    pub open spec fn settled(self, pending: PendingDeposit, outcome: TransferOutcome)
        -> DepositState {
        if outcome == TransferOutcome::Completed {
            self.credited(pending.actor@, pending.amount)
        } else {
            self
        }
    }
}

/// The deposit program's service.
pub struct Service {
    state: ContractState,
}

impl View for Service {
    type V = DepositState;

    closed spec fn view(&self) -> DepositState {
        self.state@
    }
}

impl Service {
    /// The service of a new program, with empty books.
    pub fn seed() -> (service: Service)
        ensures
            service@ == DepositState::empty(),
    {
        Service { state: ContractState::init_state() }
    }

    /// The service over books that exist already.
    pub fn new(state: ContractState) -> (service: Service)
        ensures
            service@ == state@,
    {
        Service { state }
    }

    /// The books.
    pub fn state_ref(&self) -> (state: &ContractState)
        ensures
            state@ == self@,
    {
        &self.state
    }

    /// The first phase of a deposit of `amount` tokens of `token_contract`.
    /// It fails where the depositor cannot be resolved. Otherwise it names
    /// the transfer to ask for, or nothing for an amount of zero, which is
    /// not applied and yields no event. The books are only read: nothing is
    /// credited before the transfer has completed.
    pub fn deposit(
        &self,
        session_map: &SessionMap,
        msg_source: AccountId,
        now: u64,
        token_contract: AccountId,
        amount: u128,
        session_for_account: Option<AccountId>,
    ) -> (pending: Result<Option<PendingDeposit>, Error>)
        ensures
            pending == deposit_request(
                session_map@,
                msg_source,
                session_for_account,
                now,
                token_contract,
                amount,
            ),
    {
        let actor = match get_actor(
            session_map,
            &msg_source,
            &session_for_account,
            ActionsForSession::Deposit,
            now,
        ) {
            Ok(actor) => actor,
            Err(error) => {
                return Err(error);
            },
        };
        if amount == 0 {
            Ok(None)
        } else {
            Ok(Some(PendingDeposit { token_contract, actor, amount }))
        }
    }

    /// The second phase of a deposit, once the transfer has ended. Where it
    /// completed, the depositor and the total are credited, saturating, and
    /// the event to publish is returned. Where it did not, the deposit fails
    /// and the books stay as they were.
    pub fn complete_deposit(
        &mut self,
        pending: PendingDeposit,
        outcome: TransferOutcome,
    ) -> (emitted: Result<Option<Events>, Error>)
        ensures
            emitted == settlement_answer(pending, outcome),
            final(self)@ == old(self)@.settled(pending, outcome),
    {
        match outcome {
            TransferOutcome::Completed => {},
            _ => {
                return Err(Error::ExternalCallFailed);
            },
        }
        if self.state.credit(&pending.actor, pending.amount) {
            Ok(Some(Events::Deposited(pending.actor, pending.amount)))
        } else {
            Ok(None)
        }
    }

    /// What `user` has deposited.
    pub fn query_user_balance(&self, user: AccountId) -> (balance: u128)
        ensures
            balance == self@.balance_of(user@),
    {
        self.state.balance_of(&user)
    }

    /// The total of all receipts.
    pub fn query_total_received(&self) -> (total: u128)
        ensures
            total == self@.total_received,
    {
        self.state.total_received()
    }

    /// The books as they are handed out.
    pub fn query_state(&self) -> (io: IoContractState)
        ensures
            lists_entries(io.user_balances@, self@.user_balances),
            io.total_received == self@.total_received,
    {
        self.state.snapshot()
    }
}

/// A deposit of nothing whose depositor is resolved does not fail, asks for
/// no transfer, and credits nothing even where it is settled: the books stay
/// as they were and there is no event. Where the depositor is not resolved,
/// the error of the resolution is the answer, whatever the amount.
pub proof fn lemma_deposit_of_nothing_changes_nothing(
    state: DepositState,
    sessions: Map<Seq<u8>, SessionData>,
    msg_source: AccountId,
    session_for_account: Option<AccountId>,
    now: u64,
    token_contract: AccountId,
    amount: u128,
    pending: PendingDeposit,
    outcome: TransferOutcome,
)
    ensures
        resolve_actor(
            sessions,
            msg_source,
            session_for_account,
            ActionsForSession::Deposit,
            now,
        ) matches Ok(_) ==> deposit_request(
            sessions,
            msg_source,
            session_for_account,
            now,
            token_contract,
            0,
        ) matches Ok(None),
        resolve_actor(
            sessions,
            msg_source,
            session_for_account,
            ActionsForSession::Deposit,
            now,
        ) matches Err(error) ==> deposit_request(
            sessions,
            msg_source,
            session_for_account,
            now,
            token_contract,
            amount,
        ) matches Err(refusal) && refusal == error,
        pending.amount == 0 ==> state.settled(pending, outcome) == state,
        pending.amount == 0 ==> !(settlement_answer(pending, outcome) matches Ok(Some(_))),
{
}

/// A transfer that did not complete leaves the books as they were, and the
/// deposit fails.
pub proof fn lemma_failed_transfer_changes_nothing(
    state: DepositState,
    pending: PendingDeposit,
    outcome: TransferOutcome,
)
    requires
        outcome != TransferOutcome::Completed,
    ensures
        state.settled(pending, outcome) == state,
        settlement_answer(pending, outcome) matches Err(Error::ExternalCallFailed),
{
}

/// A credit reaches the depositor and the total, and no other depositor.
pub proof fn lemma_credit_reaches_only_the_actor(state: DepositState, actor: Seq<u8>, amount: u128)
    ensures
        state.credited(actor, amount).balance_of(actor) == saturating_sum(
            state.balance_of(actor),
            amount,
        ),
        state.credited(actor, amount).total_received == saturating_sum(
            state.total_received,
            amount,
        ),
        forall|other: Seq<u8>|
            other != actor ==> state.credited(actor, amount).balance_of(other) == state.balance_of(
                other,
            ),
{
}

/// The deposit program: its service and its sessions, created together and
/// once.
pub struct Program {
    pub service: Service,
    pub session: SessionStorage,
}

impl Program {
    /// A new program, with empty books and no session.
    pub fn new() -> (program: Program)
        ensures
            program.service@ == DepositState::empty(),
            program.session.session_map@ == (Map::<Seq<u8>, SessionData>::empty()),
    {
        Program { service: Service::seed(), session: SessionStorage::seed() }
    }

    /// The program's service.
    pub fn service(&self) -> (service: &Service)
        ensures
            *service == self.service,
    {
        &self.service
    }

    /// The program's sessions.
    pub fn session(&self) -> (session: &SessionStorage)
        ensures
            *session == self.session,
    {
        &self.session
    }
}

} // verus!

use signless_ledger::account::AccountId;
use signless_ledger::deposit::{ContractState, Events, PendingDeposit, Program, Service, TransferOutcome};
use signless_ledger::error::Error;
use signless_ledger::session::{ActionsForSession, SessionData, SessionMap};

fn user(tag: u8) -> AccountId {
    AccountId::new([tag; 32])
}

const TOKEN: u8 = 200;

fn pending(actor: AccountId, amount: u128) -> PendingDeposit {
    PendingDeposit { token_contract: user(TOKEN), actor, amount }
}

#[test]
fn direct_deposit_is_credited_once_the_transfer_completed() {
    let sessions = SessionMap::new();
    let mut service = Service::seed();
    let request = service.deposit(&sessions, user(1), 0, user(TOKEN), 50, None);
    assert_eq!(request, Ok(Some(PendingDeposit { token_contract: user(TOKEN), actor: user(1), amount: 50 })));
    assert_eq!(service.query_user_balance(user(1)), 0);
    let emitted = service.complete_deposit(request.unwrap().unwrap(), TransferOutcome::Completed);
    assert_eq!(emitted, Ok(Some(Events::Deposited(user(1), 50))));
    assert_eq!(service.query_user_balance(user(1)), 50);
    assert_eq!(service.query_user_balance(user(2)), 0);
    assert_eq!(service.query_total_received(), 50);
}

#[test]
fn delegated_deposit_is_credited_to_the_account() {
    let mut sessions = SessionMap::new();
    sessions.insert(user(1), SessionData { key: user(9), expires: 100, allowed_actions: vec![ActionsForSession::Deposit] });
    let mut service = Service::seed();
    let request = service.deposit(&sessions, user(9), 10, user(TOKEN), 50, Some(user(1)));
    assert_eq!(request, Ok(Some(pending(user(1), 50))));
    assert!(service.complete_deposit(request.unwrap().unwrap(), TransferOutcome::Completed).is_ok());
    assert_eq!(service.query_user_balance(user(1)), 50);
    assert_eq!(service.query_user_balance(user(9)), 0);
}

#[test]
fn deposit_through_an_expired_session_is_refused() {
    let mut sessions = SessionMap::new();
    sessions.insert(user(1), SessionData { key: user(9), expires: 100, allowed_actions: vec![ActionsForSession::Deposit] });
    let service = Service::seed();
    let request = service.deposit(&sessions, user(9), 101, user(TOKEN), 50, Some(user(1)));
    assert_eq!(request, Err(Error::SessionExpired));
    assert_eq!(service.query_user_balance(user(1)), 0);
    assert_eq!(service.query_total_received(), 0);
    assert!(service.query_state().user_balances.is_empty());
}

#[test]
fn deposit_through_a_session_for_other_actions_is_refused() {
    let mut sessions = SessionMap::new();
    sessions.insert(user(1), SessionData { key: user(9), expires: 100, allowed_actions: vec![ActionsForSession::Mint] });
    let service = Service::seed();
    let request = service.deposit(&sessions, user(9), 1, user(TOKEN), 50, Some(user(1)));
    assert_eq!(request, Err(Error::ActionNotPermitted));
}

#[test]
fn deposit_of_nothing_is_accepted_and_changes_nothing() {
    let mut sessions = SessionMap::new();
    sessions.insert(user(1), SessionData { key: user(9), expires: 100, allowed_actions: vec![ActionsForSession::Deposit] });
    let service = Service::seed();
    assert_eq!(service.deposit(&sessions, user(1), 0, user(TOKEN), 0, None), Ok(None));
    assert_eq!(service.deposit(&sessions, user(9), 5, user(TOKEN), 0, Some(user(1))), Ok(None));
    assert_eq!(service.query_user_balance(user(1)), 0);
    assert_eq!(service.query_user_balance(user(9)), 0);
    assert_eq!(service.query_total_received(), 0);
    assert!(service.query_state().user_balances.is_empty());
}

#[test]
fn deposit_of_nothing_still_needs_its_actor_resolved() {
    let mut sessions = SessionMap::new();
    sessions.insert(user(1), SessionData { key: user(9), expires: 100, allowed_actions: vec![ActionsForSession::Mint] });
    let service = Service::seed();
    let no_session = service.deposit(&sessions, user(9), 5, user(TOKEN), 0, Some(user(2)));
    assert_eq!(no_session, Err(Error::NoValidSession));
    let expired = service.deposit(&sessions, user(9), 100, user(TOKEN), 0, Some(user(1)));
    assert_eq!(expired, Err(Error::SessionExpired));
    let unlisted = service.deposit(&sessions, user(9), 5, user(TOKEN), 0, Some(user(1)));
    assert_eq!(unlisted, Err(Error::ActionNotPermitted));
    assert_eq!(service.query_total_received(), 0);
}

#[test]
fn failed_transfer_credits_nothing() {
    let mut service = Service::seed();
    assert!(service.complete_deposit(pending(user(1), 20), TransferOutcome::Completed).is_ok());
    let unsent = service.complete_deposit(pending(user(1), 50), TransferOutcome::SendFailed);
    assert_eq!(unsent, Err(Error::ExternalCallFailed));
    let unanswered = service.complete_deposit(pending(user(2), 50), TransferOutcome::ReplyFailed);
    assert_eq!(unanswered, Err(Error::ExternalCallFailed));
    assert_eq!(service.query_user_balance(user(1)), 20);
    assert_eq!(service.query_user_balance(user(2)), 0);
    assert_eq!(service.query_total_received(), 20);
}

#[test]
fn credits_add_up() {
    let mut state = ContractState::init_state();
    assert!(state.credit(&user(1), 50));
    assert!(state.credit(&user(2), 7));
    assert!(state.credit(&user(1), 1));
    assert_eq!(state.balance_of(&user(1)), 51);
    assert_eq!(state.balance_of(&user(2)), 7);
    assert_eq!(state.total_received(), 58);
}

#[test]
fn credit_of_nothing_changes_nothing() {
    let mut state = ContractState::init_state();
    assert!(!state.credit(&user(1), 0));
    assert_eq!(state.balance_of(&user(1)), 0);
    assert_eq!(state.total_received(), 0);
    assert!(state.snapshot().user_balances.is_empty());
    let mut service = Service::new(state);
    assert_eq!(service.complete_deposit(pending(user(1), 0), TransferOutcome::Completed), Ok(None));
    assert!(service.query_state().user_balances.is_empty());
}

#[test]
fn credits_saturate() {
    let mut state = ContractState::init_state();
    assert!(state.credit(&user(1), u128::MAX - 1));
    assert!(state.credit(&user(1), 5));
    assert_eq!(state.balance_of(&user(1)), u128::MAX);
    assert_eq!(state.total_received(), u128::MAX);
    assert!(state.credit(&user(2), 3));
    assert_eq!(state.balance_of(&user(2)), 3);
    assert_eq!(state.total_received(), u128::MAX);
}

#[test]
fn state_lists_every_depositor_once() {
    let mut service = Service::seed();
    assert!(service.complete_deposit(pending(user(1), 5), TransferOutcome::Completed).is_ok());
    assert!(service.complete_deposit(pending(user(2), 6), TransferOutcome::Completed).is_ok());
    assert!(service.complete_deposit(pending(user(1), 7), TransferOutcome::Completed).is_ok());
    let io = service.query_state();
    let mut listed: Vec<([u8; 32], u128)> = io.user_balances.iter().map(|(id, amount)| (id.into_bytes(), *amount)).collect();
    listed.sort();
    assert_eq!(listed, vec![([1; 32], 12), ([2; 32], 6)]);
    assert_eq!(io.total_received, 18);
    assert_eq!(service.state_ref().total_received(), 18);
}

#[test]
fn new_deposit_program_is_empty() {
    let mut program = Program::new();
    assert_eq!(program.service().query_total_received(), 0);
    assert!(program.session().session_map.get(&user(1)).is_none());
    let request = program.service.deposit(&program.session.session_map, user(1), 0, user(TOKEN), 4, None);
    assert!(program.service.complete_deposit(request.unwrap().unwrap(), TransferOutcome::Completed).is_ok());
    assert_eq!(program.service().query_user_balance(user(1)), 4);
}

use signless_ledger::account::AccountId;
use signless_ledger::amount::Amount;
use signless_ledger::balances::{balance_of, BalancesMap};
use signless_ledger::error::Error;
use signless_ledger::roles::{ExtendedStorage, Role};
use signless_ledger::session::{ActionsForSession, SessionData, SessionMap};
use signless_ledger::token::{Event, ExtendedService, Program};

fn actor(tag: u8) -> AccountId {
    AccountId::new([tag; 32])
}

fn tokens(value: u128) -> Amount {
    Amount::from_u128(value)
}

fn sorted(mut listed: Vec<AccountId>) -> Vec<[u8; 32]> {
    let mut bytes: Vec<[u8; 32]> = listed.drain(..).map(|id| id.into_bytes()).collect();
    bytes.sort();
    bytes
}

const ADMIN: u8 = 1;

#[test]
fn seeded_service_gives_the_admin_every_role() {
    let service = ExtendedService::seed(actor(ADMIN));
    assert_eq!(service.admins(), vec![actor(ADMIN)]);
    assert_eq!(service.minters(), vec![actor(ADMIN)]);
    assert_eq!(service.burners(), vec![actor(ADMIN)]);
    assert!(service.get().has_role(Role::Admin, &actor(ADMIN)));
    assert!(!service.get().has_role(Role::Admin, &actor(2)));
}

#[test]
fn granted_minter_mints_and_cannot_overburn() {
    let mut program = Program::new(actor(ADMIN));
    let (b, c) = (actor(2), actor(3));
    let sessions = SessionMap::new();
    assert_eq!(program.service.grant_minter_role(&sessions, actor(ADMIN), 0, b, None), Ok(()));
    assert_eq!(program.service.grant_burner_role(&sessions, actor(ADMIN), 0, b, None), Ok(()));
    let minted = program.mint(b, 0, c, tokens(100), None);
    assert_eq!(minted, Ok(Some(Event::Minted { to: c, value: tokens(100) })));
    assert_eq!(program.vft.balance_of(c), tokens(100));
    assert_eq!(program.vft.total_supply(), tokens(100));
    let burned = program.burn(b, 0, c, tokens(150), None);
    assert_eq!(burned, Err(Error::InsufficientBalance));
    assert_eq!(program.vft.balance_of(c), tokens(100));
    assert_eq!(program.vft.total_supply(), tokens(100));
}

#[test]
fn minter_without_the_burner_role_cannot_burn() {
    let mut program = Program::new(actor(ADMIN));
    let (b, c) = (actor(2), actor(3));
    let sessions = SessionMap::new();
    assert_eq!(program.service.grant_minter_role(&sessions, actor(ADMIN), 0, b, None), Ok(()));
    assert_eq!(program.mint(b, 0, c, tokens(100), None), Ok(Some(Event::Minted { to: c, value: tokens(100) })));
    assert_eq!(program.burn(b, 0, c, tokens(150), None), Err(Error::NotAuthorized));
    assert_eq!(program.burn(b, 0, c, tokens(50), None), Err(Error::NotAuthorized));
    assert_eq!(program.vft.balance_of(c), tokens(100));
    assert_eq!(program.vft.total_supply(), tokens(100));
}

#[test]
fn mint_without_the_role_is_refused() {
    let mut program = Program::new(actor(ADMIN));
    let refused = program.mint(actor(2), 0, actor(2), tokens(100), None);
    assert_eq!(refused, Err(Error::NotAuthorized));
    assert_eq!(program.vft.balance_of(actor(2)), Amount::zero());
    assert_eq!(program.vft.total_supply(), Amount::zero());
}

#[test]
fn burn_without_the_role_is_refused() {
    let mut program = Program::new(actor(ADMIN));
    assert!(program.mint(actor(ADMIN), 0, actor(2), tokens(100), None).is_ok());
    let refused = program.burn(actor(2), 0, actor(2), tokens(10), None);
    assert_eq!(refused, Err(Error::NotAuthorized));
    assert_eq!(program.vft.balance_of(actor(2)), tokens(100));
}

#[test]
fn mint_of_zero_yields_no_event() {
    let mut program = Program::new(actor(ADMIN));
    assert_eq!(program.mint(actor(ADMIN), 0, actor(2), Amount::zero(), None), Ok(None));
    assert_eq!(program.burn(actor(ADMIN), 0, actor(2), Amount::zero(), None), Ok(None));
    assert_eq!(program.vft.total_supply(), Amount::zero());
    assert!(!program.vft.has_entry(&actor(2)));
}

#[test]
fn burn_yields_its_event() {
    let mut program = Program::new(actor(ADMIN));
    assert!(program.mint(actor(ADMIN), 0, actor(2), tokens(100), None).is_ok());
    let burned = program.burn(actor(ADMIN), 0, actor(2), tokens(40), None);
    assert_eq!(burned, Ok(Some(Event::Burned { from: actor(2), value: tokens(40) })));
    assert_eq!(program.vft.balance_of(actor(2)), tokens(60));
    assert_eq!(program.vft.total_supply(), tokens(60));
}

#[test]
fn mint_overflow_is_refused_and_changes_nothing() {
    let mut program = Program::new(actor(ADMIN));
    let max = Amount::from_limbs([u64::MAX; 4]);
    assert!(program.mint(actor(ADMIN), 0, actor(2), max, None).is_ok());
    let refused = program.mint(actor(ADMIN), 0, actor(3), tokens(1), None);
    assert_eq!(refused, Err(Error::NumericOverflow));
    assert_eq!(program.vft.balance_of(actor(2)), max);
    assert_eq!(program.vft.balance_of(actor(3)), Amount::zero());
    assert_eq!(program.vft.total_supply(), max);
}

#[test]
fn mint_through_a_session_acts_for_the_minter() {
    let (minter, key, receiver) = (actor(ADMIN), actor(9), actor(3));
    let mut program = Program::new(minter);
    program.session.session_map.insert(
        minter,
        SessionData { key, expires: 100, allowed_actions: vec![ActionsForSession::Mint] },
    );
    let minted = program.mint(key, 50, receiver, tokens(5), Some(minter));
    assert_eq!(minted, Ok(Some(Event::Minted { to: receiver, value: tokens(5) })));
    assert_eq!(program.mint(key, 50, receiver, tokens(5), None), Err(Error::NotAuthorized));
    assert_eq!(program.burn(key, 50, receiver, tokens(5), Some(minter)), Err(Error::ActionNotPermitted));
    assert_eq!(program.mint(key, 100, receiver, tokens(5), Some(minter)), Err(Error::SessionExpired));
    assert_eq!(program.mint(actor(8), 50, receiver, tokens(5), Some(minter)), Err(Error::UnauthorizedSender));
    assert_eq!(program.mint(key, 50, receiver, tokens(5), Some(actor(7))), Err(Error::NoValidSession));
    assert_eq!(program.vft.balance_of(receiver), tokens(5));
    assert_eq!(program.vft.total_supply(), tokens(5));
}

#[test]
fn service_mints_and_burns_in_the_ledger_it_is_handed() {
    let sessions = SessionMap::new();
    let service = ExtendedService::seed(actor(ADMIN));
    let mut balances = BalancesMap::new();
    balances.insert(&actor(2), tokens(40));
    let mut supply = tokens(70);
    let minted = service.mint(&sessions, actor(ADMIN), 0, &mut balances, &mut supply, actor(2), tokens(2), None);
    assert_eq!(minted, Ok(Some(Event::Minted { to: actor(2), value: tokens(2) })));
    assert_eq!(balance_of(&balances, actor(2)), tokens(42));
    assert_eq!(supply, tokens(72));
    let burned = service.burn(&sessions, actor(ADMIN), 0, &mut balances, &mut supply, actor(2), tokens(42), None);
    assert_eq!(burned, Ok(Some(Event::Burned { from: actor(2), value: tokens(42) })));
    assert!(!balances.has_entry(&actor(2)));
    assert_eq!(supply, tokens(30));
    let refused = service.burn(&sessions, actor(3), 0, &mut balances, &mut supply, actor(2), tokens(1), None);
    assert_eq!(refused, Err(Error::NotAuthorized));
    let refused = service.burn(&sessions, actor(ADMIN), 0, &mut balances, &mut supply, actor(2), tokens(1), None);
    assert_eq!(refused, Err(Error::InsufficientBalance));
    assert_eq!(supply, tokens(30));
}

#[test]
fn service_burn_names_a_supply_that_lags() {
    let sessions = SessionMap::new();
    let service = ExtendedService::seed(actor(ADMIN));
    let mut balances = BalancesMap::new();
    balances.insert(&actor(2), tokens(40));
    let mut supply = tokens(10);
    let refused = service.burn(&sessions, actor(ADMIN), 0, &mut balances, &mut supply, actor(2), tokens(20), None);
    assert_eq!(refused, Err(Error::Underflow));
    assert_eq!(balance_of(&balances, actor(2)), tokens(40));
    assert_eq!(supply, tokens(10));
}

#[test]
fn only_admins_change_roles() {
    let sessions = SessionMap::new();
    let mut service = ExtendedService::seed(actor(ADMIN));
    let (b, c) = (actor(2), actor(3));
    assert_eq!(service.grant_minter_role(&sessions, b, 0, c, None), Err(Error::NotAuthorized));
    assert_eq!(service.grant_burner_role(&sessions, b, 0, c, None), Err(Error::NotAuthorized));
    assert_eq!(service.grant_admin_role(&sessions, b, 0, b, None), Err(Error::NotAuthorized));
    assert_eq!(service.revoke_admin_role(&sessions, b, 0, actor(ADMIN), None), Err(Error::NotAuthorized));
    assert_eq!(service.revoke_minter_role(&sessions, b, 0, actor(ADMIN), None), Err(Error::NotAuthorized));
    assert_eq!(service.revoke_burner_role(&sessions, b, 0, actor(ADMIN), None), Err(Error::NotAuthorized));
    assert_eq!(service.admins(), vec![actor(ADMIN)]);
    assert_eq!(service.minters(), vec![actor(ADMIN)]);
    assert_eq!(service.burners(), vec![actor(ADMIN)]);
}

#[test]
fn minter_role_does_not_make_an_admin() {
    let sessions = SessionMap::new();
    let mut service = ExtendedService::seed(actor(ADMIN));
    let b = actor(2);
    assert_eq!(service.grant_minter_role(&sessions, actor(ADMIN), 0, b, None), Ok(()));
    assert_eq!(service.grant_burner_role(&sessions, b, 0, b, None), Err(Error::NotAuthorized));
    assert!(service.get().has_role(Role::Minter, &b));
    assert!(!service.get().has_role(Role::Burner, &b));
    assert!(!service.get().has_role(Role::Admin, &b));
}

#[test]
fn grants_and_revocations_take_effect_at_once() {
    let sessions = SessionMap::new();
    let mut program = Program::new(actor(ADMIN));
    let b = actor(2);
    assert_eq!(program.service.grant_admin_role(&sessions, actor(ADMIN), 0, b, None), Ok(()));
    assert!(program.service.get().has_role(Role::Admin, &b));
    assert_eq!(program.service.grant_burner_role(&sessions, b, 0, b, None), Ok(()));
    assert!(program.service.get().has_role(Role::Burner, &b));
    assert_eq!(program.service.revoke_admin_role(&sessions, b, 0, actor(ADMIN), None), Ok(()));
    assert!(!program.service.get().has_role(Role::Admin, &actor(ADMIN)));
    assert_eq!(
        program.service.grant_minter_role(&sessions, actor(ADMIN), 0, b, None),
        Err(Error::NotAuthorized)
    );
    assert_eq!(program.service.revoke_minter_role(&sessions, b, 0, actor(ADMIN), None), Ok(()));
    assert_eq!(program.service.revoke_burner_role(&sessions, b, 0, actor(ADMIN), None), Ok(()));
    assert_eq!(program.service.admins(), vec![b]);
    assert_eq!(program.service.minters(), Vec::<AccountId>::new());
    assert_eq!(program.service.burners(), vec![b]);
    assert_eq!(program.mint(actor(ADMIN), 0, b, tokens(1), None), Err(Error::NotAuthorized));
}

#[test]
fn grant_twice_and_revoke_of_a_stranger_change_nothing() {
    let sessions = SessionMap::new();
    let mut service = ExtendedService::seed(actor(ADMIN));
    let b = actor(2);
    assert_eq!(service.grant_minter_role(&sessions, actor(ADMIN), 0, b, None), Ok(()));
    assert_eq!(service.grant_minter_role(&sessions, actor(ADMIN), 0, b, None), Ok(()));
    assert_eq!(sorted(service.minters()), vec![[ADMIN; 32], [2; 32]]);
    assert_eq!(service.revoke_minter_role(&sessions, actor(ADMIN), 0, actor(5), None), Ok(()));
    assert_eq!(sorted(service.minters()), vec![[ADMIN; 32], [2; 32]]);
}

#[test]
fn role_change_through_a_session_needs_the_matching_action() {
    let mut sessions = SessionMap::new();
    let (admin, key, b) = (actor(ADMIN), actor(9), actor(2));
    sessions.insert(
        admin,
        SessionData { key, expires: 100, allowed_actions: vec![ActionsForSession::GrantMinter, ActionsForSession::RevokeBurner] },
    );
    let mut service = ExtendedService::seed(admin);
    assert_eq!(service.grant_minter_role(&sessions, key, 1, b, Some(admin)), Ok(()));
    assert_eq!(service.revoke_burner_role(&sessions, key, 1, admin, Some(admin)), Ok(()));
    assert_eq!(service.grant_admin_role(&sessions, key, 1, b, Some(admin)), Err(Error::ActionNotPermitted));
    assert_eq!(service.grant_burner_role(&sessions, key, 1, b, Some(admin)), Err(Error::ActionNotPermitted));
    assert_eq!(service.revoke_admin_role(&sessions, key, 1, b, Some(admin)), Err(Error::ActionNotPermitted));
    assert_eq!(service.revoke_minter_role(&sessions, key, 1, b, Some(admin)), Err(Error::ActionNotPermitted));
    assert_eq!(sorted(service.minters()), vec![[ADMIN; 32], [2; 32]]);
    assert_eq!(service.burners(), Vec::<AccountId>::new());
    assert_eq!(service.admins(), vec![admin]);
}

#[test]
fn approve_resolves_the_owner() {
    let mut sessions = SessionMap::new();
    let (owner, key) = (actor(4), actor(9));
    sessions.insert(owner, SessionData { key, expires: 100, allowed_actions: vec![ActionsForSession::Approve] });
    let service = ExtendedService::seed(actor(ADMIN));
    assert_eq!(service.approve(&sessions, key, 1, Some(owner)), Ok(owner));
    assert_eq!(service.approve(&sessions, key, 1, None), Ok(key));
    assert_eq!(service.approve(&sessions, key, 100, Some(owner)), Err(Error::SessionExpired));
    assert_eq!(ExtendedService::approval_outcome(true), Ok(()));
    assert_eq!(ExtendedService::approval_outcome(false), Err(Error::ApprovalFailed));
}

#[test]
fn registry_grants_and_revokes() {
    let mut registry = ExtendedStorage::new(actor(ADMIN));
    assert_eq!(registry.ensure_role(&actor(ADMIN), Role::Burner), Ok(()));
    assert_eq!(registry.ensure_role(&actor(2), Role::Burner), Err(Error::NotAuthorized));
    registry.grant(Role::Burner, &actor(2));
    assert_eq!(registry.ensure_role(&actor(2), Role::Burner), Ok(()));
    assert_eq!(registry.ensure_role(&actor(2), Role::Minter), Err(Error::NotAuthorized));
    registry.revoke(Role::Burner, &actor(ADMIN));
    assert_eq!(registry.members(Role::Burner), vec![actor(2)]);
    assert_eq!(registry.members(Role::Minter), vec![actor(ADMIN)]);
    let service = ExtendedService::new(registry);
    assert_eq!(service.burners(), vec![actor(2)]);
}

#[test]
fn new_token_program_is_seeded() {
    let mut program = Program::new(actor(ADMIN));
    assert_eq!(program.service().admins(), vec![actor(ADMIN)]);
    assert!(program.session().session_map.get(&actor(ADMIN)).is_none());
    assert_eq!(program.vft.total_supply(), Amount::zero());
    let minted = program.mint(actor(ADMIN), 0, actor(2), tokens(9), None);
    assert_eq!(minted, Ok(Some(Event::Minted { to: actor(2), value: tokens(9) })));
    assert_eq!(program.vft.balance_of(actor(2)), tokens(9));
}

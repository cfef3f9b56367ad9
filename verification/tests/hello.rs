use signless_ledger::account::AccountId;
use signless_ledger::error::Error;
use signless_ledger::hello::{Events, HelloState, Program, Service};
use signless_ledger::session::{ActionsForSession, SessionData, SessionMap};

fn guest(tag: u8) -> AccountId {
    AccountId::new([tag; 32])
}

#[test]
fn new_greeting_program_has_the_first_greeting() {
    let service = Service::seed();
    assert_eq!(service.query_greeting(), "Hello World from Vara Network!");
    assert_eq!(service.query_counter(), 0);
    assert_eq!(service.query_user_greeting(guest(1)), None);
    let io = service.query_state();
    assert_eq!(io.greeting, "Hello World from Vara Network!");
    assert!(io.user_greetings.is_empty());
    assert_eq!(io.counter, 0);
}

#[test]
fn hello_world_counts() {
    let sessions = SessionMap::new();
    let mut service = Service::seed();
    assert_eq!(service.hello_world(&sessions, guest(1), 0, None), Ok(Events::Hello));
    assert_eq!(service.hello_world(&sessions, guest(2), 0, None), Ok(Events::Hello));
    assert_eq!(service.query_counter(), 2);
    assert_eq!(service.query_greeting(), "Hello World from Vara Network!");
}

#[test]
fn hello_world_through_a_session_needs_the_action() {
    let mut sessions = SessionMap::new();
    sessions.insert(guest(1), SessionData { key: guest(9), expires: 100, allowed_actions: vec![ActionsForSession::SayHello] });
    let mut service = Service::seed();
    assert_eq!(service.hello_world(&sessions, guest(9), 5, Some(guest(1))), Ok(Events::Hello));
    let refused = service.set_greeting(&sessions, guest(9), 5, String::from("Hi"), Some(guest(1)));
    assert_eq!(refused, Err(Error::ActionNotPermitted));
    let refused = service.personal_hello(&sessions, guest(9), 5, String::from("Ann"), Some(guest(1)));
    assert_eq!(refused, Err(Error::ActionNotPermitted));
    let refused = service.hello_world(&sessions, guest(9), 100, Some(guest(1)));
    assert_eq!(refused, Err(Error::SessionExpired));
    assert_eq!(service.query_counter(), 1);
    assert_eq!(service.query_greeting(), "Hello World from Vara Network!");
    assert_eq!(service.query_user_greeting(guest(1)), None);
}

#[test]
fn personal_hello_stores_the_greeting() {
    let sessions = SessionMap::new();
    let mut service = Service::seed();
    let emitted = service.personal_hello(&sessions, guest(1), 0, String::from("Ann"), None);
    assert_eq!(emitted, Ok(Events::PersonalHello(guest(1), String::from("Ann"))));
    assert_eq!(service.query_user_greeting(guest(1)), Some(String::from("Hello Ann from Vara Network!")));
    assert_eq!(service.query_user_greeting(guest(2)), None);
    assert_eq!(service.query_counter(), 1);
    assert!(service.personal_hello(&sessions, guest(1), 0, String::from(""), None).is_ok());
    assert_eq!(service.query_user_greeting(guest(1)), Some(String::from("Hello  from Vara Network!")));
    assert_eq!(service.query_counter(), 2);
}

#[test]
fn personal_hello_through_a_session_greets_the_account() {
    let mut sessions = SessionMap::new();
    sessions.insert(guest(1), SessionData { key: guest(9), expires: 100, allowed_actions: vec![ActionsForSession::SayPersonalHello] });
    let mut service = Service::seed();
    let emitted = service.personal_hello(&sessions, guest(9), 5, String::from("Bob"), Some(guest(1)));
    assert_eq!(emitted, Ok(Events::PersonalHello(guest(1), String::from("Bob"))));
    assert_eq!(service.query_user_greeting(guest(1)), Some(String::from("Hello Bob from Vara Network!")));
    assert_eq!(service.query_user_greeting(guest(9)), None);
}

#[test]
fn set_greeting_replaces_the_greeting() {
    let sessions = SessionMap::new();
    let mut service = Service::seed();
    let emitted = service.set_greeting(&sessions, guest(1), 0, String::from("Good day"), None);
    assert_eq!(emitted, Ok(Events::GreetingSet(String::from("Good day"))));
    assert_eq!(service.query_greeting(), "Good day");
    assert_eq!(service.query_counter(), 0);
}

#[test]
fn hello_state_lists_every_greeted_account_once() {
    let sessions = SessionMap::new();
    let mut service = Service::new(HelloState::init_state());
    assert!(service.personal_hello(&sessions, guest(1), 0, String::from("Ann"), None).is_ok());
    assert!(service.personal_hello(&sessions, guest(2), 0, String::from("Bob"), None).is_ok());
    assert!(service.personal_hello(&sessions, guest(1), 0, String::from("Cy"), None).is_ok());
    let io = service.query_state();
    let mut listed: Vec<([u8; 32], String)> = io.user_greetings.iter().map(|(id, text)| (id.into_bytes(), text.clone())).collect();
    listed.sort();
    assert_eq!(
        listed,
        vec![
            ([1; 32], String::from("Hello Cy from Vara Network!")),
            ([2; 32], String::from("Hello Bob from Vara Network!")),
        ]
    );
    assert_eq!(io.counter, 3);
    assert_eq!(service.state_ref().snapshot().counter, 3);
}

#[test]
fn new_greeting_program_is_seeded() {
    let mut program = Program::new();
    assert_eq!(program.service().query_counter(), 0);
    assert!(program.session().session_map.get(&guest(1)).is_none());
    assert_eq!(program.service.hello_world(&program.session.session_map, guest(1), 0, None), Ok(Events::Hello));
    assert_eq!(program.service().query_counter(), 1);
}

//! The greeting program: a shared greeting, a greeting per account, and a
//! count of the greetings made, each operation behind the resolution of the
//! acting account.

use crate::account::AccountId;
use crate::error::Error;
use crate::session::{
    get_actor, resolve_actor, ActionsForSession, SessionData, SessionMap, SessionStorage,
};
use sails_rs::collections::HashMap;
use sails_rs::prelude::ActorId;
use vstd::prelude::*;
use vstd::string::StringExecFns;

verus! {

/// The greeting made for each account: a `hashbrown::HashMap` from `ActorId`
/// to `String`.
#[verifier::external_body]
pub struct GreetingMap {
    inner: HashMap<ActorId, String>,
}

/// The greetings that a map holds, by the bytes of the greeted account.
pub uninterp spec fn greeting_entries(greetings: GreetingMap) -> Map<Seq<u8>, Seq<char>>;

/// Whether `listed` gives every entry of `entries` once, and nothing else.
pub open spec fn lists_greetings(
    listed: Seq<(AccountId, String)>,
    entries: Map<Seq<u8>, Seq<char>>,
) -> bool {
    &&& forall|i: int|
        0 <= i < listed.len() ==> entries.contains_key(#[trigger] listed[i].0@)
            && entries[listed[i].0@] == listed[i].1@
    &&& forall|owner: Seq<u8>| #[trigger]
        entries.contains_key(owner) ==> exists|i: int|
            0 <= i < listed.len() && listed[i].0@ == owner
    &&& forall|i: int, j: int| 0 <= i < j < listed.len() ==> listed[i].0@ != listed[j].0@
}

/// `HashMap::new` of `hashbrown`: a map that holds nothing.
#[verifier::external_body]
fn greetings_new() -> (created: GreetingMap)
    ensures
        greeting_entries(created) == (Map::<Seq<u8>, Seq<char>>::empty()),
{
    GreetingMap { inner: HashMap::new() }
}

/// `HashMap::insert` of `hashbrown`: the greeting is stored under the
/// account, in place of the one that was there, and no other entry changes.
#[verifier::external_body]
fn greetings_insert(greetings: &mut GreetingMap, user: &AccountId, message: String)
    ensures
        greeting_entries(*final(greetings)) == greeting_entries(*old(greetings)).insert(
            user@,
            message@,
        ),
{
    greetings.inner.insert(ActorId::new(user.bytes), message);
}

/// `HashMap::get` of `hashbrown`, cloned: the greeting stored under the
/// account, if any.
#[verifier::external_body]
fn greetings_get(greetings: &GreetingMap, user: &AccountId) -> (found: Option<String>)
    ensures
        found.is_some() == greeting_entries(*greetings).contains_key(user@),
        found.is_some() ==> found.unwrap()@ == greeting_entries(*greetings)[user@],
{
    greetings.inner.get(&ActorId::new(user.bytes)).cloned()
}

/// `HashMap::iter` of `hashbrown`, collected: every entry once, in the order
/// in which the map happens to hand them out.
#[verifier::external_body]
fn greetings_to_vec(greetings: &GreetingMap) -> (listed: Vec<(AccountId, String)>)
    ensures
        lists_greetings(listed@, greeting_entries(*greetings)),
{
    greetings.inner.iter().map(
        |(id, text)| (AccountId::new(id.into_bytes()), text.clone()),
    ).collect()
}

impl View for GreetingMap {
    type V = Map<Seq<u8>, Seq<char>>;

    open spec fn view(&self) -> Map<Seq<u8>, Seq<char>> {
        greeting_entries(*self)
    }
}

/// The greeting of a new program.
pub open spec fn first_greeting() -> Seq<char> {
    "Hello World from Vara Network!"@
}

/// The greeting made for someone called `name`.
pub open spec fn personal_greeting(name: Seq<char>) -> Seq<char> {
    "Hello "@ + name + " from Vara Network!"@
}

/// The count after one more greeting. It starts over after the largest
/// 64-bit number.
pub open spec fn next_count(counter: u64) -> u64 {
    if counter == u64::MAX {
        0
    } else {
        (counter + 1) as u64
    }
}

/// What the greeting program holds.
pub struct HelloView {
    pub greeting: Seq<char>,
    pub user_greetings: Map<Seq<u8>, Seq<char>>,
    pub counter: u64,
}

impl HelloView {
    /// The state of a new program.
    pub open spec fn initial() -> HelloView {
        HelloView { greeting: first_greeting(), user_greetings: Map::empty(), counter: 0 }
    }

    /// The state after one more greeting was counted.
    pub open spec fn counted(self) -> HelloView {
        HelloView { counter: next_count(self.counter), ..self }
    }

    /// The state after `actor` was greeted as `name`: the greeting is stored
    /// under the actor, and counted.
    pub open spec fn greeted(self, actor: Seq<u8>, name: Seq<char>) -> HelloView {
        HelloView {
            user_greetings: self.user_greetings.insert(actor, personal_greeting(name)),
            ..self.counted()
        }
    }

    /// The state after the shared greeting was replaced by `text`.
    pub open spec fn with_greeting(self, text: Seq<char>) -> HelloView {
        HelloView { greeting: text, ..self }
    }
}

/// The answer of an operation that only needs its actor resolved: the
/// failure of the resolution, or else `event`.
pub open spec fn answer_with(resolved: Result<AccountId, Error>, event: Events) -> Result<
    Events,
    Error,
> {
    match resolved {
        Err(error) => Err(error),
        Ok(_) => Ok(event),
    }
}

/// The state of the greeting program.
pub struct HelloState {
    greeting: String,
    user_greetings: GreetingMap,
    counter: u64,
}

impl View for HelloState {
    type V = HelloView;

    closed spec fn view(&self) -> HelloView {
        HelloView {
            greeting: self.greeting@,
            user_greetings: self.user_greetings@,
            counter: self.counter,
        }
    }
}

/// The state as it is handed out: the greeting, every greeted account with
/// its greeting, in no particular order, and the count.
#[derive(Debug)]
pub struct IoHelloState {
    pub greeting: String,
    pub user_greetings: Vec<(AccountId, String)>,
    pub counter: u64,
}

/// What the greeting program publishes.
#[derive(Debug, PartialEq, Eq)]
pub enum Events {
    Hello,
    PersonalHello(AccountId, String),
    GreetingSet(String),
}

impl HelloState {
    /// The state of a new program.
    pub fn init_state() -> (state: HelloState)
        ensures
            state@ == HelloView::initial(),
    {
        HelloState {
            greeting: String::from_str("Hello World from Vara Network!"),
            user_greetings: greetings_new(),
            counter: 0,
        }
    }

    /// The state as it is handed out.
    pub fn snapshot(&self) -> (io: IoHelloState)
        ensures
            io.greeting@ == self@.greeting,
            lists_greetings(io.user_greetings@, self@.user_greetings),
            io.counter == self@.counter,
    {
        IoHelloState {
            greeting: self.greeting.clone(),
            user_greetings: greetings_to_vec(&self.user_greetings),
            counter: self.counter,
        }
    }
}

/// The greeting program's service.
pub struct Service {
    state: HelloState,
}

impl View for Service {
    type V = HelloView;

    closed spec fn view(&self) -> HelloView {
        self.state@
    }
}

impl Service {
    /// The service of a new program.
    pub fn seed() -> (service: Service)
        ensures
            service@ == HelloView::initial(),
    {
        Service { state: HelloState::init_state() }
    }

    /// The service over a state that exists already.
    pub fn new(state: HelloState) -> (service: Service)
        ensures
            service@ == state@,
    {
        Service { state }
    }

    /// The state.
    pub fn state_ref(&self) -> (state: &HelloState)
        ensures
            state@ == self@,
    {
        &self.state
    }

    /// Counts one greeting, for the resolved actor of a message that asks
    /// for `SayHello`. Fails, changing nothing, where the actor cannot be
    /// resolved.
    pub fn hello_world(
        &mut self,
        session_map: &SessionMap,
        msg_source: AccountId,
        now: u64,
        session_for_account: Option<AccountId>,
    ) -> (emitted: Result<Events, Error>)
        ensures
            emitted == answer_with(
                resolve_actor(
                    session_map@,
                    msg_source,
                    session_for_account,
                    ActionsForSession::SayHello,
                    now,
                ),
                Events::Hello,
            ),
            final(self)@ == (if emitted.is_ok() {
                old(self)@.counted()
            } else {
                old(self)@
            }),
    {
        match get_actor(
            session_map,
            &msg_source,
            &session_for_account,
            ActionsForSession::SayHello,
            now,
        ) {
            Ok(_) => {},
            Err(error) => {
                return Err(error);
            },
        }
        self.state.counter = self.state.counter.wrapping_add(1);
        Ok(Events::Hello)
    }

    /// Stores the greeting made for `name` under the resolved actor of a
    /// message that asks for `SayPersonalHello`, and counts it. Fails,
    /// changing nothing, where the actor cannot be resolved.
    pub fn personal_hello(
        &mut self,
        session_map: &SessionMap,
        msg_source: AccountId,
        now: u64,
        name: String,
        session_for_account: Option<AccountId>,
    ) -> (emitted: Result<Events, Error>)
        ensures
            emitted == (match resolve_actor(
                session_map@,
                msg_source,
                session_for_account,
                ActionsForSession::SayPersonalHello,
                now,
            ) {
                Err(error) => Err(error),
                Ok(actor) => Ok(Events::PersonalHello(actor, name)),
            }),
            final(self)@ == (match emitted {
                Ok(Events::PersonalHello(actor, _)) => old(self)@.greeted(actor@, name@),
                _ => old(self)@,
            }),
    {
        let actor = match get_actor(
            session_map,
            &msg_source,
            &session_for_account,
            ActionsForSession::SayPersonalHello,
            now,
        ) {
            Ok(actor) => actor,
            Err(error) => {
                return Err(error);
            },
        };
        let mut message = String::from_str("Hello ");
        message.append(name.as_str());
        message.append(" from Vara Network!");
        greetings_insert(&mut self.state.user_greetings, &actor, message);
        self.state.counter = self.state.counter.wrapping_add(1);
        Ok(Events::PersonalHello(actor, name))
    }

    /// Replaces the shared greeting, for the resolved actor of a message
    /// that asks for `SetGreeting`. Fails, changing nothing, where the actor
    /// cannot be resolved.
    pub fn set_greeting(
        &mut self,
        session_map: &SessionMap,
        msg_source: AccountId,
        now: u64,
        new_greeting: String,
        session_for_account: Option<AccountId>,
    ) -> (emitted: Result<Events, Error>)
        ensures
            emitted == answer_with(
                resolve_actor(
                    session_map@,
                    msg_source,
                    session_for_account,
                    ActionsForSession::SetGreeting,
                    now,
                ),
                Events::GreetingSet(new_greeting),
            ),
            final(self)@ == (if emitted.is_ok() {
                old(self)@.with_greeting(new_greeting@)
            } else {
                old(self)@
            }),
    {
        match get_actor(
            session_map,
            &msg_source,
            &session_for_account,
            ActionsForSession::SetGreeting,
            now,
        ) {
            Ok(_) => {},
            Err(error) => {
                return Err(error);
            },
        }
        self.state.greeting = new_greeting.clone();
        Ok(Events::GreetingSet(new_greeting))
    }

    /// The shared greeting.
    pub fn query_greeting(&self) -> (greeting: String)
        ensures
            greeting@ == self@.greeting,
    {
        self.state.greeting.clone()
    }

    /// The greeting made for `user`, if any.
    pub fn query_user_greeting(&self, user: AccountId) -> (greeting: Option<String>)
        ensures
            greeting.is_some() == self@.user_greetings.contains_key(user@),
            greeting.is_some() ==> greeting.unwrap()@ == self@.user_greetings[user@],
    {
        greetings_get(&self.state.user_greetings, &user)
    }

    /// The number of greetings made.
    pub fn query_counter(&self) -> (counter: u64)
        ensures
            counter == self@.counter,
    {
        self.state.counter
    }

    /// The state as it is handed out.
    pub fn query_state(&self) -> (io: IoHelloState)
        ensures
            io.greeting@ == self@.greeting,
            lists_greetings(io.user_greetings@, self@.user_greetings),
            io.counter == self@.counter,
    {
        self.state.snapshot()
    }
}

/// The greeting program: its service and its sessions, created together
/// and once.
pub struct Program {
    pub service: Service,
    pub session: SessionStorage,
}

impl Program {
    /// A new program, with the first greeting and no session.
    pub fn new() -> (program: Program)
        ensures
            program.service@ == HelloView::initial(),
            program.session.session_map@ == (Map::<Seq<u8>, SessionData>::empty()),
    {
        Program { service: Service::seed(), session: SessionStorage::seed() }
    }

    /// The program's service.
    pub fn service(&self) -> (service: &Service)
        ensures
            *service == self.service,
    {
        &self.service
    }

    /// The program's sessions.
    pub fn session(&self) -> (session: &SessionStorage)
        ensures
            *session == self.session,
    {
        &self.session
    }
}

} // verus!

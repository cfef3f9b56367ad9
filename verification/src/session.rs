//! Delegated sessions and the resolution of the acting account.
//!
//! A session lets a delegate key act for an account until a given time and
//! for a given set of actions. The store of sessions is filled from outside;
//! resolution only reads it.

use crate::account::AccountId;
use crate::error::Error;
use sails_rs::collections::HashMap;
use sails_rs::prelude::ActorId;
use vstd::prelude::*;

verus! {

/// The actions that a session can delegate: the deposit program's, the
/// greeting program's and the token program's, each program using its own.
#[derive(Clone, Copy, Debug, PartialEq, Eq, Structural)]
pub enum ActionsForSession {
    Deposit,
    SayHello,
    SayPersonalHello,
    SetGreeting,
    Mint,
    Burn,
    Approve,
    GrantAdmin,
    GrantMinter,
    GrantBurner,
    RevokeAdmin,
    RevokeMinter,
    RevokeBurner,
}

/// A delegation: `key` may act for the account under which the record is
/// stored, while the time is before `expires`, for the listed actions.
#[derive(Debug)]
pub struct SessionData {
    pub key: AccountId,
    pub expires: u64,
    pub allowed_actions: Vec<ActionsForSession>,
}

impl SessionData {
    /// Whether the session lists the action.
    pub fn allows(&self, action: ActionsForSession) -> (listed: bool)
        ensures
            listed == self.allowed_actions@.contains(action),
    {
        let mut i: usize = 0;
        while i < self.allowed_actions.len()
            invariant
                i <= self.allowed_actions.len(),
                forall|j: int| 0 <= j < i ==> self.allowed_actions@[j] != action,
            decreases self.allowed_actions.len() - i,
        {
            if self.allowed_actions[i] == action {
                return true;
            }
            i += 1;
        }
        false
    }
}

/// The session records of a program, one per delegating account: a
/// `hashbrown::HashMap` keyed by `ActorId`.
#[verifier::external_body]
pub struct SessionMap {
    inner: HashMap<ActorId, SessionData>,
}

/// The records that a session map holds, by the bytes of the delegating account.
pub uninterp spec fn session_entries(sessions: SessionMap) -> Map<Seq<u8>, SessionData>;

/// `HashMap::new` of `hashbrown`: a map that holds nothing.
#[verifier::external_body]
fn session_map_new() -> (created: SessionMap)
    ensures
        session_entries(created) == (Map::<Seq<u8>, SessionData>::empty()),
{
    SessionMap { inner: HashMap::new() }
}

/// `HashMap::insert` of `hashbrown`: the record is stored under the account,
/// in place of the one that was there, and no other entry changes.
#[verifier::external_body]
fn session_map_insert(sessions: &mut SessionMap, account: &AccountId, data: SessionData)
    ensures
        session_entries(*final(sessions)) == session_entries(*old(sessions)).insert(account@, data),
{
    sessions.inner.insert(ActorId::new(account.bytes), data);
}

/// `HashMap::get` of `hashbrown`: the record stored under the account, if any.
#[verifier::external_body]
fn session_map_get<'a>(sessions: &'a SessionMap, account: &AccountId) -> (found: Option<
    &'a SessionData,
>)
    ensures
        session_entries(*sessions).contains_key(account@) ==> found == Some(
            &session_entries(*sessions)[account@],
        ),
        !session_entries(*sessions).contains_key(account@) ==> found.is_none(),
{
    sessions.inner.get(&ActorId::new(account.bytes))
}

impl View for SessionMap {
    type V = Map<Seq<u8>, SessionData>;

    open spec fn view(&self) -> Map<Seq<u8>, SessionData> {
        session_entries(*self)
    }
}

impl SessionMap {
    /// A map without sessions.
    pub fn new() -> (created: SessionMap)
        ensures
            created@ == (Map::<Seq<u8>, SessionData>::empty()),
    {
        session_map_new()
    }

    /// Stores `data` as the session of `account`, replacing an earlier one.
    pub fn insert(&mut self, account: AccountId, data: SessionData)
        ensures
            final(self)@ == old(self)@.insert(account@, data),
    {
        session_map_insert(self, &account, data);
    }

    /// The session of `account`, if it has one.
    pub fn get(&self, account: &AccountId) -> (found: Option<&SessionData>)
        ensures
            found == (if self@.contains_key(account@) {
                Some(&self@[account@])
            } else {
                None
            }),
    {
        session_map_get(self, account)
    }
}

/// The session state of a program.
pub struct SessionStorage {
    pub session_map: SessionMap,
}

impl SessionStorage {
    /// The state of a program that has issued no session yet.
    pub fn seed() -> (storage: SessionStorage)
        ensures
            storage.session_map@ == (Map::<Seq<u8>, SessionData>::empty()),
    {
        SessionStorage { session_map: SessionMap::new() }
    }
}

/// The session map of a program's session state.
pub fn get_session_map(storage: &SessionStorage) -> (sessions: &SessionMap)
    ensures
        *sessions == storage.session_map,
{
    &storage.session_map
}

/// The four conditions under which `msg_source` may act for the account that
/// `session` belongs to, in the order in which they are tested.
pub open spec fn session_verdict(
    session: SessionData,
    msg_source: AccountId,
    action: ActionsForSession,
    now: u64,
) -> Option<Error> {
    if !(now < session.expires) {
        Some(Error::SessionExpired)
    } else if !session.allowed_actions@.contains(action) {
        Some(Error::ActionNotPermitted)
    } else if session.key@ != msg_source@ {
        Some(Error::UnauthorizedSender)
    } else {
        None
    }
}

/// The account that a message acts for. Without `session_for_account` it is
/// the sender. With it, it is the named account, provided that the account
/// has a session, that the session has not expired at `now`, that it lists
/// `action`, and that its key is the sender; the first of these that fails
/// gives the error.
pub open spec fn resolve_actor(
    sessions: Map<Seq<u8>, SessionData>,
    msg_source: AccountId,
    session_for_account: Option<AccountId>,
    action: ActionsForSession,
    now: u64,
) -> Result<AccountId, Error> {
    match session_for_account {
        None => Ok(msg_source),
        Some(account) => {
            if !sessions.contains_key(account@) {
                Err(Error::NoValidSession)
            } else {
                match session_verdict(sessions[account@], msg_source, action, now) {
                    Some(error) => Err(error),
                    None => Ok(account),
                }
            }
        },
    }
}

/// Resolves the account that the message acts for; see [`resolve_actor`].
/// The session map is only read.
pub fn get_actor(
    session_map: &SessionMap,
    msg_source: &AccountId,
    session_for_account: &Option<AccountId>,
    action: ActionsForSession,
    now: u64,
) -> (actor: Result<AccountId, Error>)
    ensures
        actor == resolve_actor(session_map@, *msg_source, *session_for_account, action, now),
{
    match session_for_account {
        Some(account) => {
            let session = match session_map.get(account) {
                Some(session) => session,
                None => {
                    return Err(Error::NoValidSession);
                },
            };
            if !(session.expires > now) {
                return Err(Error::SessionExpired);
            }
            if !session.allows(action) {
                return Err(Error::ActionNotPermitted);
            }
            if !(session.key == *msg_source) {
                return Err(Error::UnauthorizedSender);
            }
            Ok(*account)
        },
        None => Ok(*msg_source),
    }
}

/// A message that names an account is accepted exactly when the account has
/// a session, the session is unexpired, lists the action and has the sender
/// as its key; it then acts for the named account. Each condition alone,
/// when violated, rejects the message.
pub proof fn lemma_delegated_call_accepted_iff(
    sessions: Map<Seq<u8>, SessionData>,
    msg_source: AccountId,
    account: AccountId,
    action: ActionsForSession,
    now: u64,
)
    ensures
        resolve_actor(sessions, msg_source, Some(account), action, now).is_ok() <==> {
            &&& sessions.contains_key(account@)
            &&& now < sessions[account@].expires
            &&& sessions[account@].allowed_actions@.contains(action)
            &&& sessions[account@].key@ == msg_source@
        },
        resolve_actor(sessions, msg_source, Some(account), action, now) matches Ok(actor)
            ==> actor == account,
{
}

/// Each of the four conditions, when it is the first to fail, rejects the
/// message with an error of its own.
pub proof fn lemma_first_violation_names_the_error(
    sessions: Map<Seq<u8>, SessionData>,
    msg_source: AccountId,
    account: AccountId,
    action: ActionsForSession,
    now: u64,
)
    ensures
        !sessions.contains_key(account@) ==> resolve_actor(
            sessions,
            msg_source,
            Some(account),
            action,
            now,
        ) matches Err(Error::NoValidSession),
        sessions.contains_key(account@) && now >= sessions[account@].expires ==> resolve_actor(
            sessions,
            msg_source,
            Some(account),
            action,
            now,
        ) matches Err(Error::SessionExpired),
        sessions.contains_key(account@) && now < sessions[account@].expires
            && !sessions[account@].allowed_actions@.contains(action) ==> resolve_actor(
            sessions,
            msg_source,
            Some(account),
            action,
            now,
        ) matches Err(Error::ActionNotPermitted),
        sessions.contains_key(account@) && now < sessions[account@].expires
            && sessions[account@].allowed_actions@.contains(action) && sessions[account@].key@
            != msg_source@ ==> resolve_actor(
            sessions,
            msg_source,
            Some(account),
            action,
            now,
        ) matches Err(Error::UnauthorizedSender),
{
}

/// A message that names no account acts for its sender, whatever the
/// sessions hold.
pub proof fn lemma_direct_call_acts_for_sender(
    sessions: Map<Seq<u8>, SessionData>,
    msg_source: AccountId,
    action: ActionsForSession,
    now: u64,
)
    ensures
        resolve_actor(sessions, msg_source, None, action, now) matches Ok(actor)
            && actor == msg_source,
{
}

} // verus!

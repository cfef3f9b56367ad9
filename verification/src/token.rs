//! The token program: mint, burn, approve and the management of roles, each
//! behind the resolution of the acting account.
//!
//! Every operation first resolves the account that the message acts for.
//! The privileged ones then ask for a role of that account, and only then
//! change the ledger or the registry. The event to publish is part of the
//! answer, and is there only where something changed.
//!
//! The service holds the roles. The balances and the supply belong to the
//! token and are handed to each mint and burn; [`Program`] keeps them in a
//! [`Ledger`] of its own.

use crate::account::AccountId;
use crate::amount::Amount;
use crate::balances::BalancesMap;
use crate::error::Error;
use crate::ledger::{ledger_state, Ledger, LedgerState};
use crate::roles::{lists_exactly, ExtendedStorage, Role, RolesState};
use crate::session::{
    get_actor, resolve_actor, ActionsForSession, SessionData, SessionMap, SessionStorage,
};
use vstd::prelude::*;

verus! {

/// What the token program publishes after a change of the ledger.
#[derive(Clone, Copy, Debug, PartialEq, Eq)]
pub enum Event {
    Minted { to: AccountId, value: Amount },
    Burned { from: AccountId, value: Amount },
}

/// The action that a session must list for a grant or a revocation of `role`.
pub open spec fn role_action(grant: bool, role: Role) -> ActionsForSession {
    match role {
        Role::Admin => if grant {
            ActionsForSession::GrantAdmin
        } else {
            ActionsForSession::RevokeAdmin
        },
        Role::Minter => if grant {
            ActionsForSession::GrantMinter
        } else {
            ActionsForSession::RevokeMinter
        },
        Role::Burner => if grant {
            ActionsForSession::GrantBurner
        } else {
            ActionsForSession::RevokeBurner
        },
    }
}

/// The account that a privileged message acts for: the resolved actor,
/// provided that it holds `role`.
pub open spec fn privileged_actor(
    roles: RolesState,
    sessions: Map<Seq<u8>, SessionData>,
    msg_source: AccountId,
    session_for_account: Option<AccountId>,
    now: u64,
    action: ActionsForSession,
    role: Role,
) -> Result<AccountId, Error> {
    match resolve_actor(sessions, msg_source, session_for_account, action, now) {
        Err(error) => Err(error),
        Ok(actor) => if roles.has_role(role, actor@) {
            Ok(actor)
        } else {
            Err(Error::NotAuthorized)
        },
    }
}

/// The answer to a mint: the failure of the resolution, of the role test or
/// of the ledger, or else the event to publish, which is absent for a value
/// of zero.
pub open spec fn mint_answer(
    roles: RolesState,
    sessions: Map<Seq<u8>, SessionData>,
    msg_source: AccountId,
    session_for_account: Option<AccountId>,
    now: u64,
    ledger: LedgerState,
    to: AccountId,
    value: Amount,
) -> Result<Option<Event>, Error> {
    match privileged_actor(
        roles,
        sessions,
        msg_source,
        session_for_account,
        now,
        ActionsForSession::Mint,
        Role::Minter,
    ) {
        Err(error) => Err(error),
        Ok(_) => match ledger.mint_outcome(to@, value@) {
            Err(error) => Err(error),
            Ok(applied) => if applied {
                Ok(Some(Event::Minted { to, value }))
            } else {
                Ok(None)
            },
        },
    }
}

/// The answer to a burn: the failure of the resolution, of the role test or
/// of the ledger, or else the event to publish, which is absent for a value
/// of zero.
pub open spec fn burn_answer(
    roles: RolesState,
    sessions: Map<Seq<u8>, SessionData>,
    msg_source: AccountId,
    session_for_account: Option<AccountId>,
    now: u64,
    ledger: LedgerState,
    from: AccountId,
    value: Amount,
) -> Result<Option<Event>, Error> {
    match privileged_actor(
        roles,
        sessions,
        msg_source,
        session_for_account,
        now,
        ActionsForSession::Burn,
        Role::Burner,
    ) {
        Err(error) => Err(error),
        Ok(_) => match ledger.burn_outcome(from@, value@) {
            Err(error) => Err(error),
            Ok(applied) => if applied {
                Ok(Some(Event::Burned { from, value }))
            } else {
                Ok(None)
            },
        },
    }
}

/// The ledger after a mint that was answered with `answer`: changed where
/// the answer holds an event, the same ledger where it does not.
pub open spec fn ledger_after_mint(
    ledger: LedgerState,
    answer: Result<Option<Event>, Error>,
    to: Seq<u8>,
    value: nat,
) -> LedgerState {
    if answer matches Ok(Some(_)) {
        ledger.after_mint(to, value)
    } else {
        ledger
    }
}

/// The ledger after a burn that was answered with `answer`: changed where
/// the answer holds an event, the same ledger where it does not.
pub open spec fn ledger_after_burn(
    ledger: LedgerState,
    answer: Result<Option<Event>, Error>,
    from: Seq<u8>,
    value: nat,
) -> LedgerState {
    if answer matches Ok(Some(_)) {
        ledger.after_burn(from, value)
    } else {
        ledger
    }
}

/// The answer to a grant or a revocation: the failure of the resolution or
/// of the test for the admin role, or else success.
pub open spec fn role_answer(
    roles: RolesState,
    sessions: Map<Seq<u8>, SessionData>,
    msg_source: AccountId,
    session_for_account: Option<AccountId>,
    now: u64,
    grant: bool,
    role: Role,
) -> Result<(), Error> {
    match privileged_actor(
        roles,
        sessions,
        msg_source,
        session_for_account,
        now,
        role_action(grant, role),
        Role::Admin,
    ) {
        Err(error) => Err(error),
        Ok(_) => Ok(()),
    }
}

/// The registry after a grant or a revocation that was answered with
/// `answer`: changed where the answer is a success, the same registry where
/// it is not.
pub open spec fn roles_after_change(
    roles: RolesState,
    answer: Result<(), Error>,
    grant: bool,
    role: Role,
    account: Seq<u8>,
) -> RolesState {
    if answer.is_err() {
        roles
    } else if grant {
        roles.granted(role, account)
    } else {
        roles.revoked(role, account)
    }
}

/// The token program's service: the role registry and the operations that
/// ask it.
pub struct ExtendedService {
    roles: ExtendedStorage,
}

impl View for ExtendedService {
    type V = RolesState;

    closed spec fn view(&self) -> RolesState {
        self.roles@
    }
}

impl ExtendedService {
    /// The service of a new program. `admin`, the sender of the message that
    /// creates the program, holds every role.
    pub fn seed(admin: AccountId) -> (service: ExtendedService)
        ensures
            service@ == RolesState::seeded(admin@),
    {
        ExtendedService { roles: ExtendedStorage::new(admin) }
    }

    /// The service over a registry that exists already.
    pub fn new(roles: ExtendedStorage) -> (service: ExtendedService)
        ensures
            service@ == roles@,
    {
        ExtendedService { roles }
    }

    /// The role registry.
    pub fn get(&self) -> (storage: &ExtendedStorage)
        ensures
            storage@ == self@,
    {
        &self.roles
    }

    /// The account for which an approval is to be recorded: the resolved
    /// actor of a message that asks for `Approve`. Nothing changes here; the
    /// allowance itself is kept by the token's allowance mechanism.
    pub fn approve(
        &self,
        session_map: &SessionMap,
        msg_source: AccountId,
        now: u64,
        session_for_account: Option<AccountId>,
    ) -> (owner: Result<AccountId, Error>)
        ensures
            owner == resolve_actor(
                session_map@,
                msg_source,
                session_for_account,
                ActionsForSession::Approve,
                now,
            ),
    {
        get_actor(session_map, &msg_source, &session_for_account, ActionsForSession::Approve, now)
    }

    /// What an approval comes to once the allowance mechanism has answered:
    /// a failure where it answered `false`.
    pub fn approval_outcome(approved: bool) -> (outcome: Result<(), Error>)
        ensures
            outcome == (if approved {
                Ok(())
            } else {
                Err(Error::ApprovalFailed)
            }),
    {
        if approved {
            Ok(())
        } else {
            Err(Error::ApprovalFailed)
        }
    }

    /// Mints `value` to `to` in the token's ledger, for a minter. Fails,
    /// changing nothing, where the actor cannot be resolved, is no minter,
    /// or the mint overflows. A value of zero changes nothing and yields no
    /// event. A ledger whose supply is the sum of its balances stays so.
    pub fn mint(
        &self,
        session_map: &SessionMap,
        msg_source: AccountId,
        now: u64,
        balances: &mut BalancesMap,
        total_supply: &mut Amount,
        to: AccountId,
        value: Amount,
        session_for_account: Option<AccountId>,
    ) -> (emitted: Result<Option<Event>, Error>)
        ensures
            emitted == mint_answer(
                self@,
                session_map@,
                msg_source,
                session_for_account,
                now,
                ledger_state(old(balances)@, old(total_supply)@),
                to,
                value,
            ),
            ledger_state(final(balances)@, final(total_supply)@) == ledger_after_mint(
                ledger_state(old(balances)@, old(total_supply)@),
                emitted,
                to@,
                value@,
            ),
            !(emitted matches Ok(Some(_))) ==> *final(balances) == *old(balances)
                && *final(total_supply) == *old(total_supply),
            ledger_state(old(balances)@, old(total_supply)@).well_formed() ==> ledger_state(
                final(balances)@,
                final(total_supply)@,
            ).well_formed(),
    {
        let actor = match get_actor(
            session_map,
            &msg_source,
            &session_for_account,
            ActionsForSession::Mint,
            now,
        ) {
            Ok(actor) => actor,
            Err(error) => {
                return Err(error);
            },
        };
        if !self.roles.has_role(Role::Minter, &actor) {
            return Err(Error::NotAuthorized);
        }
        match crate::ledger::mint(balances, total_supply, to, value) {
            Ok(true) => Ok(Some(Event::Minted { to, value })),
            Ok(false) => Ok(None),
            Err(error) => Err(error),
        }
    }

    /// Burns `value` of `from` in the token's ledger, for a burner. Fails,
    /// changing nothing, where the actor cannot be resolved, is no burner,
    /// or `from` or the supply holds less than `value`. A value of zero
    /// changes nothing and yields no event. A ledger whose supply is the sum
    /// of its balances stays so.
    pub fn burn(
        &self,
        session_map: &SessionMap,
        msg_source: AccountId,
        now: u64,
        balances: &mut BalancesMap,
        total_supply: &mut Amount,
        from: AccountId,
        value: Amount,
        session_for_account: Option<AccountId>,
    ) -> (emitted: Result<Option<Event>, Error>)
        ensures
            emitted == burn_answer(
                self@,
                session_map@,
                msg_source,
                session_for_account,
                now,
                ledger_state(old(balances)@, old(total_supply)@),
                from,
                value,
            ),
            ledger_state(final(balances)@, final(total_supply)@) == ledger_after_burn(
                ledger_state(old(balances)@, old(total_supply)@),
                emitted,
                from@,
                value@,
            ),
            !(emitted matches Ok(Some(_))) ==> *final(balances) == *old(balances)
                && *final(total_supply) == *old(total_supply),
            ledger_state(old(balances)@, old(total_supply)@).well_formed() ==> ledger_state(
                final(balances)@,
                final(total_supply)@,
            ).well_formed(),
    {
        let actor = match get_actor(
            session_map,
            &msg_source,
            &session_for_account,
            ActionsForSession::Burn,
            now,
        ) {
            Ok(actor) => actor,
            Err(error) => {
                return Err(error);
            },
        };
        if !self.roles.has_role(Role::Burner, &actor) {
            return Err(Error::NotAuthorized);
        }
        match crate::ledger::burn(balances, total_supply, from, value) {
            Ok(true) => Ok(Some(Event::Burned { from, value })),
            Ok(false) => Ok(None),
            Err(error) => Err(error),
        }
    }

    /// Passes where `actor` is an admin, and fails with `NotAuthorized`
    /// where it is not.
    fn ensure_is_admin_actor(&self, actor: AccountId) -> (passed: Result<(), Error>)
        ensures
            passed == (if self@.has_role(Role::Admin, actor@) {
                Ok(())
            } else {
                Err(Error::NotAuthorized)
            }),
    {
        self.roles.ensure_role(&actor, Role::Admin)
    }

    /// Grants or revokes `role` for an admin: the step that the six role
    /// operations share.
    fn change_role(
        &mut self,
        session_map: &SessionMap,
        msg_source: AccountId,
        now: u64,
        grant: bool,
        role: Role,
        account: AccountId,
        session_for_account: Option<AccountId>,
    ) -> (changed: Result<(), Error>)
        ensures
            changed == role_answer(
                old(self)@,
                session_map@,
                msg_source,
                session_for_account,
                now,
                grant,
                role,
            ),
            final(self)@ == roles_after_change(old(self)@, changed, grant, role, account@),
    {
        let action = match role {
            Role::Admin => if grant {
                ActionsForSession::GrantAdmin
            } else {
                ActionsForSession::RevokeAdmin
            },
            Role::Minter => if grant {
                ActionsForSession::GrantMinter
            } else {
                ActionsForSession::RevokeMinter
            },
            Role::Burner => if grant {
                ActionsForSession::GrantBurner
            } else {
                ActionsForSession::RevokeBurner
            },
        };
        let actor = match get_actor(session_map, &msg_source, &session_for_account, action, now) {
            Ok(actor) => actor,
            Err(error) => {
                return Err(error);
            },
        };
        match self.ensure_is_admin_actor(actor) {
            Ok(()) => {},
            Err(error) => {
                return Err(error);
            },
        }
        if grant {
            self.roles.grant(role, &account);
        } else {
            self.roles.revoke(role, &account);
        }
        Ok(())
    }

    /// Makes `to` an admin, for an admin.
    pub fn grant_admin_role(
        &mut self,
        session_map: &SessionMap,
        msg_source: AccountId,
        now: u64,
        to: AccountId,
        session_for_account: Option<AccountId>,
    ) -> (changed: Result<(), Error>)
        ensures
            changed == role_answer(
                old(self)@,
                session_map@,
                msg_source,
                session_for_account,
                now,
                true,
                Role::Admin,
            ),
            final(self)@ == roles_after_change(old(self)@, changed, true, Role::Admin, to@),
    {
        self.change_role(
            session_map,
            msg_source,
            now,
            true,
            Role::Admin,
            to,
            session_for_account,
        )
    }

    /// Makes `to` a minter, for an admin.
    pub fn grant_minter_role(
        &mut self,
        session_map: &SessionMap,
        msg_source: AccountId,
        now: u64,
        to: AccountId,
        session_for_account: Option<AccountId>,
    ) -> (changed: Result<(), Error>)
        ensures
            changed == role_answer(
                old(self)@,
                session_map@,
                msg_source,
                session_for_account,
                now,
                true,
                Role::Minter,
            ),
            final(self)@ == roles_after_change(old(self)@, changed, true, Role::Minter, to@),
    {
        self.change_role(
            session_map,
            msg_source,
            now,
            true,
            Role::Minter,
            to,
            session_for_account,
        )
    }

    /// Makes `to` a burner, for an admin.
    pub fn grant_burner_role(
        &mut self,
        session_map: &SessionMap,
        msg_source: AccountId,
        now: u64,
        to: AccountId,
        session_for_account: Option<AccountId>,
    ) -> (changed: Result<(), Error>)
        ensures
            changed == role_answer(
                old(self)@,
                session_map@,
                msg_source,
                session_for_account,
                now,
                true,
                Role::Burner,
            ),
            final(self)@ == roles_after_change(old(self)@, changed, true, Role::Burner, to@),
    {
        self.change_role(
            session_map,
            msg_source,
            now,
            true,
            Role::Burner,
            to,
            session_for_account,
        )
    }

    /// Takes the admin role from `from`, for an admin.
    pub fn revoke_admin_role(
        &mut self,
        session_map: &SessionMap,
        msg_source: AccountId,
        now: u64,
        from: AccountId,
        session_for_account: Option<AccountId>,
    ) -> (changed: Result<(), Error>)
        ensures
            changed == role_answer(
                old(self)@,
                session_map@,
                msg_source,
                session_for_account,
                now,
                false,
                Role::Admin,
            ),
            final(self)@ == roles_after_change(old(self)@, changed, false, Role::Admin, from@),
    {
        self.change_role(
            session_map,
            msg_source,
            now,
            false,
            Role::Admin,
            from,
            session_for_account,
        )
    }

    /// Takes the minter role from `from`, for an admin.
    pub fn revoke_minter_role(
        &mut self,
        session_map: &SessionMap,
        msg_source: AccountId,
        now: u64,
        from: AccountId,
        session_for_account: Option<AccountId>,
    ) -> (changed: Result<(), Error>)
        ensures
            changed == role_answer(
                old(self)@,
                session_map@,
                msg_source,
                session_for_account,
                now,
                false,
                Role::Minter,
            ),
            final(self)@ == roles_after_change(old(self)@, changed, false, Role::Minter, from@),
    {
        self.change_role(
            session_map,
            msg_source,
            now,
            false,
            Role::Minter,
            from,
            session_for_account,
        )
    }

    /// Takes the burner role from `from`, for an admin.
    pub fn revoke_burner_role(
        &mut self,
        session_map: &SessionMap,
        msg_source: AccountId,
        now: u64,
        from: AccountId,
        session_for_account: Option<AccountId>,
    ) -> (changed: Result<(), Error>)
        ensures
            changed == role_answer(
                old(self)@,
                session_map@,
                msg_source,
                session_for_account,
                now,
                false,
                Role::Burner,
            ),
            final(self)@ == roles_after_change(old(self)@, changed, false, Role::Burner, from@),
    {
        self.change_role(
            session_map,
            msg_source,
            now,
            false,
            Role::Burner,
            from,
            session_for_account,
        )
    }

    /// The minters, each once, in no particular order.
    pub fn minters(&self) -> (listed: Vec<AccountId>)
        ensures
            lists_exactly(listed@, self@.minters),
    {
        self.roles.members(Role::Minter)
    }

    /// The burners, each once, in no particular order.
    pub fn burners(&self) -> (listed: Vec<AccountId>)
        ensures
            lists_exactly(listed@, self@.burners),
    {
        self.roles.members(Role::Burner)
    }

    /// The admins, each once, in no particular order.
    pub fn admins(&self) -> (listed: Vec<AccountId>)
        ensures
            lists_exactly(listed@, self@.admins),
    {
        self.roles.members(Role::Admin)
    }
}

/// A message whose resolved actor is no admin cannot grant or revoke any
/// role: the operation fails with `NotAuthorized` and leaves the registry as
/// it was.
pub proof fn lemma_role_change_needs_admin(
    roles: RolesState,
    sessions: Map<Seq<u8>, SessionData>,
    msg_source: AccountId,
    session_for_account: Option<AccountId>,
    now: u64,
    grant: bool,
    role: Role,
    account: Seq<u8>,
)
    requires
        resolve_actor(
            sessions,
            msg_source,
            session_for_account,
            role_action(grant, role),
            now,
        ) matches Ok(actor) && !roles.has_role(Role::Admin, actor@),
    ensures
        role_answer(roles, sessions, msg_source, session_for_account, now, grant, role) matches Err(
            Error::NotAuthorized,
        ),
        roles_after_change(
            roles,
            role_answer(roles, sessions, msg_source, session_for_account, now, grant, role),
            grant,
            role,
            account,
        ) == roles,
{
}

/// After a grant that succeeded, the account holds the role.
pub proof fn lemma_granted_account_passes(
    roles: RolesState,
    sessions: Map<Seq<u8>, SessionData>,
    msg_source: AccountId,
    session_for_account: Option<AccountId>,
    now: u64,
    role: Role,
    account: Seq<u8>,
)
    requires
        role_answer(roles, sessions, msg_source, session_for_account, now, true, role).is_ok(),
    ensures
        roles_after_change(
            roles,
            role_answer(roles, sessions, msg_source, session_for_account, now, true, role),
            true,
            role,
            account,
        ).has_role(role, account),
{
}

/// Whatever a mint or a burn is answered with, a well-formed ledger stays
/// well formed.
pub proof fn lemma_ledger_calls_keep_well_formed(
    ledger: LedgerState,
    answer: Result<Option<Event>, Error>,
    account: Seq<u8>,
    value: nat,
)
    requires
        ledger.well_formed(),
    ensures
        ledger_after_mint(ledger, answer, account, value).well_formed(),
        ledger_after_burn(ledger, answer, account, value).well_formed(),
{
    crate::ledger::lemma_mint_keeps_well_formed(ledger, account, value);
    crate::ledger::lemma_burn_keeps_well_formed(ledger, account, value);
}

/// The token program: its service, its ledger and its sessions, created
/// together and once.
pub struct Program {
    pub service: ExtendedService,
    pub vft: Ledger,
    pub session: SessionStorage,
}

impl Program {
    /// A new program. `admin`, the sender of the message that creates it,
    /// holds every role; nothing is minted and there is no session.
    pub fn new(admin: AccountId) -> (program: Program)
        ensures
            program.service@ == RolesState::seeded(admin@),
            program.vft@ == LedgerState::empty(),
            program.session.session_map@ == (Map::<Seq<u8>, SessionData>::empty()),
    {
        Program {
            service: ExtendedService::seed(admin),
            vft: Ledger::new(),
            session: SessionStorage::seed(),
        }
    }

    /// The program's service.
    pub fn service(&self) -> (service: &ExtendedService)
        ensures
            *service == self.service,
    {
        &self.service
    }

    /// The program's sessions.
    pub fn session(&self) -> (session: &SessionStorage)
        ensures
            *session == self.session,
    {
        &self.session
    }

    /// Mints `value` to `to` in the program's ledger, for a minter with
    /// respect to the program's sessions; see [`ExtendedService::mint`]. The
    /// supply stays the sum of the balances.
    pub fn mint(
        &mut self,
        msg_source: AccountId,
        now: u64,
        to: AccountId,
        value: Amount,
        session_for_account: Option<AccountId>,
    ) -> (emitted: Result<Option<Event>, Error>)
        ensures
            emitted == mint_answer(
                old(self).service@,
                old(self).session.session_map@,
                msg_source,
                session_for_account,
                now,
                old(self).vft@,
                to,
                value,
            ),
            final(self).vft@ == ledger_after_mint(old(self).vft@, emitted, to@, value@),
            final(self).vft@.well_formed(),
            final(self).service == old(self).service,
            final(self).session == old(self).session,
    {
        let (mut balances, mut total_supply) = self.vft.take_parts();
        let emitted = self.service.mint(
            &self.session.session_map,
            msg_source,
            now,
            &mut balances,
            &mut total_supply,
            to,
            value,
            session_for_account,
        );
        self.vft = Ledger::from_parts(balances, total_supply);
        emitted
    }

    /// Burns `value` of `from` in the program's ledger, for a burner with
    /// respect to the program's sessions; see [`ExtendedService::burn`]. The
    /// supply stays the sum of the balances, so the burn fails on the ledger
    /// only for lack of balance.
    pub fn burn(
        &mut self,
        msg_source: AccountId,
        now: u64,
        from: AccountId,
        value: Amount,
        session_for_account: Option<AccountId>,
    ) -> (emitted: Result<Option<Event>, Error>)
        ensures
            emitted == burn_answer(
                old(self).service@,
                old(self).session.session_map@,
                msg_source,
                session_for_account,
                now,
                old(self).vft@,
                from,
                value,
            ),
            !(emitted matches Err(Error::Underflow)),
            final(self).vft@ == ledger_after_burn(old(self).vft@, emitted, from@, value@),
            final(self).vft@.well_formed(),
            final(self).service == old(self).service,
            final(self).session == old(self).session,
    {
        let (mut balances, mut total_supply) = self.vft.take_parts();
        proof {
            crate::ledger::lemma_burn_never_underflows(
                ledger_state(balances@, total_supply@),
                from@,
                value@,
            );
        }
        let emitted = self.service.burn(
            &self.session.session_map,
            msg_source,
            now,
            &mut balances,
            &mut total_supply,
            from,
            value,
            session_for_account,
        );
        self.vft = Ledger::from_parts(balances, total_supply);
        emitted
    }
}

} // verus!

//! The role registry: which accounts are admins, minters and burners.
//!
//! The three sets are independent: an account may hold any of the roles, or
//! none. Membership is all that can be observed of a set.

use crate::account::AccountId;
use crate::error::Error;
use sails_rs::collections::HashSet;
use sails_rs::prelude::ActorId;
use vstd::prelude::*;

verus! {

/// A set of accounts: a `hashbrown::HashSet` of `ActorId`.
#[verifier::external_body]
pub struct ActorSet {
    inner: HashSet<ActorId>,
}

/// The accounts that a set holds, each by its bytes.
pub uninterp spec fn set_members(accounts: ActorSet) -> Set<Seq<u8>>;

/// Whether `listed` names every member of `members` once, and nothing else.
pub open spec fn lists_exactly(listed: Seq<AccountId>, members: Set<Seq<u8>>) -> bool {
    &&& forall|i: int| 0 <= i < listed.len() ==> members.contains(#[trigger] listed[i]@)
    &&& forall|member: Seq<u8>| #[trigger]
        members.contains(member) ==> exists|i: int| 0 <= i < listed.len() && listed[i]@ == member
    &&& forall|i: int, j: int| 0 <= i < j < listed.len() ==> listed[i]@ != listed[j]@
}

/// `HashSet::new` of `hashbrown`: a set that holds nothing.
#[verifier::external_body]
fn actor_set_new() -> (created: ActorSet)
    ensures
        set_members(created) == Set::<Seq<u8>>::empty(),
{
    ActorSet { inner: HashSet::new() }
}

/// `HashSet::contains` of `hashbrown`: whether the account is in the set.
#[verifier::external_body]
fn actor_set_contains(accounts: &ActorSet, account: &AccountId) -> (held: bool)
    ensures
        held == set_members(*accounts).contains(account@),
{
    accounts.inner.contains(&ActorId::new(account.bytes))
}

/// `HashSet::insert` of `hashbrown`: the account is in the set afterwards,
/// and no other membership changes.
#[verifier::external_body]
fn actor_set_insert(accounts: &mut ActorSet, account: &AccountId)
    ensures
        set_members(*final(accounts)) == set_members(*old(accounts)).insert(account@),
{
    accounts.inner.insert(ActorId::new(account.bytes));
}

/// `HashSet::remove` of `hashbrown`: the account is not in the set
/// afterwards, and no other membership changes.
#[verifier::external_body]
fn actor_set_remove(accounts: &mut ActorSet, account: &AccountId)
    ensures
        set_members(*final(accounts)) == set_members(*old(accounts)).remove(account@),
{
    accounts.inner.remove(&ActorId::new(account.bytes));
}

/// `HashSet::iter` of `hashbrown`, collected: every member once, in the
/// order in which the set happens to hand them out.
#[verifier::external_body]
fn actor_set_to_vec(accounts: &ActorSet) -> (listed: Vec<AccountId>)
    ensures
        lists_exactly(listed@, set_members(*accounts)),
{
    accounts.inner.iter().map(|id| AccountId::new(id.into_bytes())).collect()
}

impl View for ActorSet {
    type V = Set<Seq<u8>>;

    open spec fn view(&self) -> Set<Seq<u8>> {
        set_members(*self)
    }
}

/// The three roles that the token's privileged operations ask for.
#[derive(Clone, Copy, Debug, PartialEq, Eq, Structural)]
pub enum Role {
    /// May grant and revoke every role, this one included.
    Admin,
    /// May mint.
    Minter,
    /// May burn.
    Burner,
}

/// Who holds which role.
pub struct RolesState {
    pub admins: Set<Seq<u8>>,
    pub minters: Set<Seq<u8>>,
    pub burners: Set<Seq<u8>>,
}

impl RolesState {
    /// The registry in which `admin` holds all three roles and nobody else
    /// holds any.
    pub open spec fn seeded(admin: Seq<u8>) -> RolesState {
        RolesState { admins: set![admin], minters: set![admin], burners: set![admin] }
    }

    /// The accounts that hold `role`.
    pub open spec fn members(self, role: Role) -> Set<Seq<u8>> {
        match role {
            Role::Admin => self.admins,
            Role::Minter => self.minters,
            Role::Burner => self.burners,
        }
    }

    /// Whether `account` holds `role`.
    pub open spec fn has_role(self, role: Role, account: Seq<u8>) -> bool {
        self.members(role).contains(account)
    }

    /// The registry with the holders of `role` replaced.
    pub open spec fn with_members(self, role: Role, members: Set<Seq<u8>>) -> RolesState {
        match role {
            Role::Admin => RolesState { admins: members, ..self },
            Role::Minter => RolesState { minters: members, ..self },
            Role::Burner => RolesState { burners: members, ..self },
        }
    }

    /// The registry after `account` was given `role`.
    pub open spec fn granted(self, role: Role, account: Seq<u8>) -> RolesState {
        self.with_members(role, self.members(role).insert(account))
    }

    /// The registry after `role` was taken from `account`.
    pub open spec fn revoked(self, role: Role, account: Seq<u8>) -> RolesState {
        self.with_members(role, self.members(role).remove(account))
    }
}

/// The role registry of the token program.
pub struct ExtendedStorage {
    minters: ActorSet,
    burners: ActorSet,
    admins: ActorSet,
}

impl View for ExtendedStorage {
    type V = RolesState;

    closed spec fn view(&self) -> RolesState {
        RolesState { admins: self.admins@, minters: self.minters@, burners: self.burners@ }
    }
}

impl ExtendedStorage {
    /// The registry of a new program: `admin` holds every role.
    pub fn new(admin: AccountId) -> (storage: ExtendedStorage)
        ensures
            storage@ == RolesState::seeded(admin@),
    {
        let mut admins = actor_set_new();
        let mut minters = actor_set_new();
        let mut burners = actor_set_new();
        actor_set_insert(&mut admins, &admin);
        actor_set_insert(&mut minters, &admin);
        actor_set_insert(&mut burners, &admin);
        ExtendedStorage { minters, burners, admins }
    }

    /// Whether `account` holds `role`.
    pub fn has_role(&self, role: Role, account: &AccountId) -> (held: bool)
        ensures
            held == self@.has_role(role, account@),
    {
        match role {
            Role::Admin => actor_set_contains(&self.admins, account),
            Role::Minter => actor_set_contains(&self.minters, account),
            Role::Burner => actor_set_contains(&self.burners, account),
        }
    }

    /// Passes where `actor` holds `role`, and fails with `NotAuthorized`
    /// where it does not.
    pub fn ensure_role(&self, actor: &AccountId, role: Role) -> (passed: Result<(), Error>)
        ensures
            passed == (if self@.has_role(role, actor@) {
                Ok(())
            } else {
                Err(Error::NotAuthorized)
            }),
    {
        if self.has_role(role, actor) {
            Ok(())
        } else {
            Err(Error::NotAuthorized)
        }
    }

    /// Gives `role` to `account`. Nothing changes where it holds it already.
    pub fn grant(&mut self, role: Role, account: &AccountId)
        ensures
            final(self)@ == old(self)@.granted(role, account@),
    {
        match role {
            Role::Admin => actor_set_insert(&mut self.admins, account),
            Role::Minter => actor_set_insert(&mut self.minters, account),
            Role::Burner => actor_set_insert(&mut self.burners, account),
        }
    }

    /// Takes `role` from `account`. Nothing changes where it does not hold it.
    pub fn revoke(&mut self, role: Role, account: &AccountId)
        ensures
            final(self)@ == old(self)@.revoked(role, account@),
    {
        match role {
            Role::Admin => actor_set_remove(&mut self.admins, account),
            Role::Minter => actor_set_remove(&mut self.minters, account),
            Role::Burner => actor_set_remove(&mut self.burners, account),
        }
    }

    /// The accounts that hold `role`, each once, in no particular order.
    pub fn members(&self, role: Role) -> (listed: Vec<AccountId>)
        ensures
            lists_exactly(listed@, self@.members(role)),
    {
        match role {
            Role::Admin => actor_set_to_vec(&self.admins),
            Role::Minter => actor_set_to_vec(&self.minters),
            Role::Burner => actor_set_to_vec(&self.burners),
        }
    }
}

/// An account that was granted a role holds it at once, and the grant
/// touches no other role and no other account.
pub proof fn lemma_granted_role_is_held(roles: RolesState, role: Role, account: Seq<u8>)
    ensures
        roles.granted(role, account).has_role(role, account),
        forall|other_role: Role, other: Seq<u8>|
            other_role != role || other != account ==> roles.granted(role, account).has_role(
                other_role,
                other,
            ) == roles.has_role(other_role, other),
{
}

/// An account from which a role was revoked no longer holds it, and the
/// revocation touches no other role and no other account.
pub proof fn lemma_revoked_role_is_not_held(roles: RolesState, role: Role, account: Seq<u8>)
    ensures
        !roles.revoked(role, account).has_role(role, account),
        forall|other_role: Role, other: Seq<u8>|
            other_role != role || other != account ==> roles.revoked(role, account).has_role(
                other_role,
                other,
            ) == roles.has_role(other_role, other),
{
}

/// Granting a role to one who holds it, and revoking one from one who does
/// not, change nothing.
pub proof fn lemma_grant_and_revoke_are_idempotent(roles: RolesState, role: Role, account: Seq<u8>)
    ensures
        roles.has_role(role, account) ==> roles.granted(role, account) == roles,
        !roles.has_role(role, account) ==> roles.revoked(role, account) == roles,
{
    if roles.has_role(role, account) {
        assert(roles.members(role).insert(account) =~= roles.members(role));
    } else {
        assert(roles.members(role).remove(account) =~= roles.members(role));
    }
}

} // verus!

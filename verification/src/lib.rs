//! Delegated-session authorization and checked balance ledgers.
//!
//! An operation names the account it acts for; a session record may let
//! another key sign for that account, for a limited time and a limited set
//! of actions. Once the acting account is known, role membership decides on the
//! privileged operations, and every change of a balance goes through
//! arithmetic that either succeeds exactly or leaves the state as it was.

pub mod account;
pub mod amount;
pub mod balances;
pub mod deposit;
pub mod error;
pub mod hello;
pub mod ledger;
pub mod roles;
pub mod session;
pub mod supply;
pub mod token;

//! The reasons for which an operation is rejected.

use vstd::prelude::*;

verus! {

/// Why an operation was not applied. Every rejection leaves the state as it was.
#[derive(Clone, Copy, Debug, PartialEq, Eq, Structural)]
pub enum Error {
    /// The account named by the caller has no session record.
    NoValidSession,
    /// The session's expiry is not later than the current time.
    SessionExpired,
    /// The session does not list the requested action.
    ActionNotPermitted,
    /// The message was not sent by the session's delegate key.
    UnauthorizedSender,
    /// The acting account does not hold the role that the operation asks for.
    NotAuthorized,
    /// A balance or the total supply would exceed 256 bits.
    NumericOverflow,
    /// The total supply is smaller than the value to take from it.
    Underflow,
    /// The account's balance is smaller than the value to take from it.
    InsufficientBalance,
    /// The transfer asked of the token program did not complete.
    ExternalCallFailed,
    /// The token program's allowance mechanism refused the approval.
    ApprovalFailed,
}

} // verus!

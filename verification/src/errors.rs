use vstd::prelude::*;

verus! {

/// Why a ledger operation was refused.
///
/// Every operation either succeeds completely or fails with exactly one of
/// these reasons and no state change at all.
#[derive(Clone, Copy, Debug, PartialEq, Eq, Structural)]
pub enum LedgerError {
    /// `initialize` was called on a ledger whose token is already configured.
    AlreadyInitialized,
    /// An operation that needs the token configuration ran before `initialize`.
    NotInitialized,
    /// A deposit or withdrawal named an amount that is not strictly positive.
    InvalidAmount,
    /// A withdrawal asked for more than the user's recorded balance.
    InsufficientBalance,
    /// The authorization oracle did not confirm the caller for this call.
    AuthorizationFailed,
    /// The token service refused or failed the requested transfer.
    TransferFailed,
}

} // verus!

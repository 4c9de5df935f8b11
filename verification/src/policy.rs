//! Per-call decision rules of the ledger, over plain values.
//!
//! A host shell runs each operation in two steps. Before it attempts the
//! external token transfer it asks the admission rule whether the request may
//! proceed at all (`deposit_admission`, `withdraw_admission`); the guards are
//! checked in a fixed order, so an inadmissible request never reaches the
//! token service. After the transfer was attempted it asks the outcome rule
//! (`deposit_outcome`, `withdraw_outcome`) what to record: the new balance on
//! success, or the error to surface. The rules are total: every combination
//! of inputs has exactly one verdict, stated in the contracts.

use vstd::prelude::*;

use crate::errors::LedgerError;

verus! {

/// Verdict on configuring the token: allowed exactly once.
pub fn initialize_verdict(already_initialized: bool) -> (r: Result<(), LedgerError>)
    ensures
        already_initialized ==> r == Err::<(), LedgerError>(LedgerError::AlreadyInitialized),
        !already_initialized ==> r == Ok::<(), LedgerError>(()),
{
    if already_initialized {
        Err(LedgerError::AlreadyInitialized)
    } else {
        Ok(())
    }
}

/// Verdict on a read that needs the token configuration.
pub fn require_initialized(initialized: bool) -> (r: Result<(), LedgerError>)
    ensures
        initialized ==> r == Ok::<(), LedgerError>(()),
        !initialized ==> r == Err::<(), LedgerError>(LedgerError::NotInitialized),
{
    if initialized {
        Ok(())
    } else {
        Err(LedgerError::NotInitialized)
    }
}

/// May a deposit proceed to the token transfer? Guards in order: the caller
/// must be authorized, the amount strictly positive, the token configured.
pub fn deposit_admission(initialized: bool, amount: i128, auth_ok: bool) -> (r: Result<
    (),
    LedgerError,
>)
    ensures
        !auth_ok ==> r == Err::<(), LedgerError>(LedgerError::AuthorizationFailed),
        auth_ok && amount <= 0 ==> r == Err::<(), LedgerError>(LedgerError::InvalidAmount),
        auth_ok && amount > 0 && !initialized ==> r == Err::<(), LedgerError>(
            LedgerError::NotInitialized,
        ),
        auth_ok && amount > 0 && initialized ==> r == Ok::<(), LedgerError>(()),
{
    if !auth_ok {
        Err(LedgerError::AuthorizationFailed)
    } else if amount <= 0 {
        Err(LedgerError::InvalidAmount)
    } else if !initialized {
        Err(LedgerError::NotInitialized)
    } else {
        Ok(())
    }
}

/// May a withdrawal proceed to the token transfer? Same guards as a deposit,
/// and additionally the recorded balance must cover the amount; that local
/// check comes strictly before any external transfer is attempted.
pub fn withdraw_admission(
    initialized: bool,
    current_balance: i128,
    amount: i128,
    auth_ok: bool,
) -> (r: Result<(), LedgerError>)
    ensures
        !auth_ok ==> r == Err::<(), LedgerError>(LedgerError::AuthorizationFailed),
        auth_ok && amount <= 0 ==> r == Err::<(), LedgerError>(LedgerError::InvalidAmount),
        auth_ok && amount > 0 && !initialized ==> r == Err::<(), LedgerError>(
            LedgerError::NotInitialized,
        ),
        auth_ok && amount > 0 && initialized && current_balance < amount ==> r == Err::<
            (),
            LedgerError,
        >(LedgerError::InsufficientBalance),
        auth_ok && amount > 0 && initialized && current_balance >= amount ==> r == Ok::<
            (),
            LedgerError,
        >(()),
{
    if !auth_ok {
        Err(LedgerError::AuthorizationFailed)
    } else if amount <= 0 {
        Err(LedgerError::InvalidAmount)
    } else if !initialized {
        Err(LedgerError::NotInitialized)
    } else if current_balance < amount {
        Err(LedgerError::InsufficientBalance)
    } else {
        Ok(())
    }
}

/// What a deposit records once the transfer was attempted: the raised balance
/// when everything held and the transfer went through, the error otherwise.
pub fn deposit_outcome(
    initialized: bool,
    current_balance: i128,
    amount: i128,
    transfer_ok: bool,
) -> (r: Result<i128, LedgerError>)
    requires
        amount > 0 && initialized && transfer_ok ==> current_balance + amount <= i128::MAX,
    ensures
        amount <= 0 ==> r == Err::<i128, LedgerError>(LedgerError::InvalidAmount),
        amount > 0 && !initialized ==> r == Err::<i128, LedgerError>(LedgerError::NotInitialized),
        amount > 0 && initialized && !transfer_ok ==> r == Err::<i128, LedgerError>(
            LedgerError::TransferFailed,
        ),
        amount > 0 && initialized && transfer_ok ==> r == Ok::<i128, LedgerError>(
            (current_balance + amount) as i128,
        ),
{
    if amount <= 0 {
        Err(LedgerError::InvalidAmount)
    } else if !initialized {
        Err(LedgerError::NotInitialized)
    } else if !transfer_ok {
        Err(LedgerError::TransferFailed)
    } else {
        Ok(current_balance + amount)
    }
}

/// What a withdrawal records once the transfer was attempted: the lowered
/// balance when everything held and the transfer went through, the error
/// otherwise. The result never goes below zero: a covered withdrawal leaves
/// `current_balance - amount >= 0`.
pub fn withdraw_outcome(
    initialized: bool,
    current_balance: i128,
    amount: i128,
    transfer_ok: bool,
) -> (r: Result<i128, LedgerError>)
    ensures
        amount <= 0 ==> r == Err::<i128, LedgerError>(LedgerError::InvalidAmount),
        amount > 0 && !initialized ==> r == Err::<i128, LedgerError>(LedgerError::NotInitialized),
        amount > 0 && initialized && current_balance < amount ==> r == Err::<i128, LedgerError>(
            LedgerError::InsufficientBalance,
        ),
        amount > 0 && initialized && current_balance >= amount && !transfer_ok ==> r == Err::<
            i128,
            LedgerError,
        >(LedgerError::TransferFailed),
        amount > 0 && initialized && current_balance >= amount && transfer_ok ==> r == Ok::<
            i128,
            LedgerError,
        >((current_balance - amount) as i128),
{
    if amount <= 0 {
        Err(LedgerError::InvalidAmount)
    } else if !initialized {
        Err(LedgerError::NotInitialized)
    } else if current_balance < amount {
        Err(LedgerError::InsufficientBalance)
    } else if !transfer_ok {
        Err(LedgerError::TransferFailed)
    } else {
        Ok(current_balance - amount)
    }
}

} // verus!

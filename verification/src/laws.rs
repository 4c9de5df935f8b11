//! Laws the ledger operations obey together.
//!
//! Each lemma quantifies over states and results related by the operation
//! predicates of [`crate::ledger`] — exactly what the operations' own
//! contracts establish — and states a fact a caller may rely on across
//! calls. A balance read is `balance_of`, which `get_balance` returns
//! verbatim.

use vstd::prelude::*;

use crate::errors::LedgerError;
use crate::ledger::{
    Account, DepositContract, LedgerEvent, TransferOrder, deposit_spec, get_token_spec,
    initialize_spec, prepare_deposit_spec, prepare_withdraw_spec, withdraw_spec,
};

verus! {

/// A deposit the admission check let through cannot fail at the recording
/// step once the token service honored the order: the host never ends up
/// having moved tokens for a request the ledger then refuses.
pub proof fn lemma_admitted_deposit_succeeds(
    s: DepositContract,
    post: DepositContract,
    user: u64,
    amount: i128,
    order: TransferOrder,
    r: Result<LedgerEvent, LedgerError>,
)
    requires
        prepare_deposit_spec(s, user, amount, true, Ok(order)),
        deposit_spec(s, post, user, amount, true, r),
    ensures
        r is Ok,
        order == (TransferOrder { from: Account::User(user), to: Account::Contract, amount }),
{
}

/// A withdrawal the admission check let through cannot fail at the recording
/// step once the token service honored the order: in particular the
/// sufficiency guard of the admission is exactly the one the recording step
/// re-checks.
pub proof fn lemma_admitted_withdraw_succeeds(
    s: DepositContract,
    post: DepositContract,
    user: u64,
    amount: i128,
    order: TransferOrder,
    r: Result<LedgerEvent, LedgerError>,
)
    requires
        prepare_withdraw_spec(s, user, amount, true, Ok(order)),
        withdraw_spec(s, post, user, amount, true, r),
    ensures
        r is Ok,
        order == (TransferOrder { from: Account::Contract, to: Account::User(user), amount }),
{
}

/// Depositing a positive amount succeeds once the ledger is configured and
/// the transfer went through, and a balance read afterwards returns the
/// balance before the deposit plus that amount.
pub proof fn lemma_deposit_then_read(
    pre: DepositContract,
    post: DepositContract,
    user: u64,
    amount: i128,
    transfer_ok: bool,
    r: Result<LedgerEvent, LedgerError>,
)
    requires
        amount > 0,
        pre.is_initialized(),
        transfer_ok,
        deposit_spec(pre, post, user, amount, transfer_ok, r),
    ensures
        r is Ok,
        post.balance_of(user) == pre.balance_of(user) + amount,
{
}

/// Withdrawing a positive amount no larger than the recorded balance
/// succeeds once the ledger is configured and the transfer went through, and
/// a balance read afterwards returns the balance before the withdrawal minus
/// that amount; withdrawing exactly the whole balance leaves zero.
pub proof fn lemma_withdraw_then_read(
    pre: DepositContract,
    post: DepositContract,
    user: u64,
    amount: i128,
    transfer_ok: bool,
    r: Result<LedgerEvent, LedgerError>,
)
    requires
        amount > 0,
        amount <= pre.balance_of(user),
        pre.is_initialized(),
        transfer_ok,
        withdraw_spec(pre, post, user, amount, transfer_ok, r),
    ensures
        r is Ok,
        post.balance_of(user) == pre.balance_of(user) - amount,
        amount == pre.balance_of(user) ==> post.balance_of(user) == 0,
{
}

/// A withdrawal of more than the recorded balance fails with
/// `InsufficientBalance` and leaves the whole state unchanged, whatever the
/// token service would have answered.
pub proof fn lemma_overdraw_rejected(
    pre: DepositContract,
    post: DepositContract,
    user: u64,
    amount: i128,
    transfer_ok: bool,
    r: Result<LedgerEvent, LedgerError>,
)
    requires
        amount > 0,
        pre.is_initialized(),
        amount > pre.balance_of(user),
        withdraw_spec(pre, post, user, amount, transfer_ok, r),
    ensures
        r == Err::<LedgerEvent, LedgerError>(LedgerError::InsufficientBalance),
        post == pre,
{
}

/// A deposit or withdrawal of a non-positive amount fails with
/// `InvalidAmount` and leaves the whole state unchanged, in any state and
/// whatever the token service would have answered.
pub proof fn lemma_nonpositive_amount_rejected(
    pre: DepositContract,
    post_d: DepositContract,
    post_w: DepositContract,
    user: u64,
    amount: i128,
    transfer_d: bool,
    transfer_w: bool,
    r_d: Result<LedgerEvent, LedgerError>,
    r_w: Result<LedgerEvent, LedgerError>,
)
    requires
        amount <= 0,
        deposit_spec(pre, post_d, user, amount, transfer_d, r_d),
        withdraw_spec(pre, post_w, user, amount, transfer_w, r_w),
    ensures
        r_d == Err::<LedgerEvent, LedgerError>(LedgerError::InvalidAmount),
        post_d == pre,
        r_w == Err::<LedgerEvent, LedgerError>(LedgerError::InvalidAmount),
        post_w == pre,
{
}

/// The first `initialize` on a fresh ledger succeeds and stores its token; a
/// second one fails with `AlreadyInitialized`, changes nothing, and the
/// token identifier remains the first one set — whatever the second call
/// offered.
pub proof fn lemma_initialize_twice(
    s0: DepositContract,
    s1: DepositContract,
    s2: DepositContract,
    token1: u64,
    token2: u64,
    r1: Result<(), LedgerError>,
    r2: Result<(), LedgerError>,
)
    requires
        !s0.is_initialized(),
        initialize_spec(s0, s1, token1, r1),
        initialize_spec(s1, s2, token2, r2),
    ensures
        r1 == Ok::<(), LedgerError>(()),
        r2 == Err::<(), LedgerError>(LedgerError::AlreadyInitialized),
        s2 == s1,
        s2.token_id() == token1,
{
}

/// Before `initialize`, a deposit or withdrawal of a positive amount and a
/// token read all fail with `NotInitialized`, and the state stays as it was.
/// (A non-positive amount is rejected as `InvalidAmount` first.)
pub proof fn lemma_uninitialized_rejected(
    s: DepositContract,
    post_d: DepositContract,
    post_w: DepositContract,
    user: u64,
    amount: i128,
    transfer_d: bool,
    transfer_w: bool,
    r_d: Result<LedgerEvent, LedgerError>,
    r_w: Result<LedgerEvent, LedgerError>,
    r_g: Result<u64, LedgerError>,
)
    requires
        !s.is_initialized(),
        amount > 0,
        deposit_spec(s, post_d, user, amount, transfer_d, r_d),
        withdraw_spec(s, post_w, user, amount, transfer_w, r_w),
        get_token_spec(s, r_g),
    ensures
        r_d == Err::<LedgerEvent, LedgerError>(LedgerError::NotInitialized),
        post_d == s,
        r_w == Err::<LedgerEvent, LedgerError>(LedgerError::NotInitialized),
        post_w == s,
        r_g == Err::<u64, LedgerError>(LedgerError::NotInitialized),
{
}

/// No operation moves the balance of a user it does not name: initializing,
/// and depositing to or withdrawing from one user, leave every other user's
/// balance exactly as it was. Together with a fresh ledger's all-zero
/// balances this keeps a never-touched user's read at zero.
pub proof fn lemma_bystander_balance_unchanged(
    pre: DepositContract,
    post_i: DepositContract,
    post_d: DepositContract,
    post_w: DepositContract,
    token: u64,
    user: u64,
    other: u64,
    amount: i128,
    transfer_d: bool,
    transfer_w: bool,
    r_i: Result<(), LedgerError>,
    r_d: Result<LedgerEvent, LedgerError>,
    r_w: Result<LedgerEvent, LedgerError>,
)
    requires
        other != user,
        initialize_spec(pre, post_i, token, r_i),
        deposit_spec(pre, post_d, user, amount, transfer_d, r_d),
        withdraw_spec(pre, post_w, user, amount, transfer_w, r_w),
    ensures
        post_i.balance_of(other) == pre.balance_of(other),
        post_d.balance_of(other) == pre.balance_of(other),
        post_w.balance_of(other) == pre.balance_of(other),
{
}

} // verus!

//! The ledger state machine: the durable state of the contract and its five
//! operations.
//!
//! [`DepositContract`] owns the two persistent facts of the ledger: the
//! configured token identifier and the per-user balance table. User and token
//! identities are plain integers here; the host keeps the mapping between
//! them and its own identity values.
//!
//! A balance-mutating operation runs as a protocol between the host and the
//! ledger. The host first verifies caller authorization with its oracle and
//! asks `prepare_deposit` or `prepare_withdraw` whether the request is
//! admissible; on admission it receives the [`TransferOrder`] it must hand to
//! the token service. After attempting that transfer it reports the outcome
//! to [`DepositContract::deposit`] or [`DepositContract::withdraw`], which
//! records the new balance — or refuses, leaving the state untouched — and
//! returns the [`LedgerEvent`] the host publishes. Each operation's full
//! behaviour is one predicate (`initialize_spec`, `deposit_spec`,
//! `withdraw_spec`, `get_token_spec`) used verbatim in its contract.

use vstd::prelude::*;

use std::collections::HashMap;

use crate::errors::LedgerError;
use crate::policy;

verus! {

broadcast use vstd::std_specs::hash::group_hash_axioms;

/// The key space of the durable store: one singleton slot for the token
/// configuration, and one slot per user for that user's balance.
#[derive(Clone, Copy, Debug, PartialEq, Eq, Structural)]
pub enum DataKey {
    /// The balance slot of one user.
    Balance(u64),
    /// The token-configuration slot.
    Token,
}

/// One side of a token transfer: a user's own token account, or the token
/// account the contract holds custody in.
#[derive(Clone, Copy, Debug, PartialEq, Eq, Structural)]
pub enum Account {
    User(u64),
    Contract,
}

/// A transfer the host must ask the token service to perform.
#[derive(Clone, Copy, Debug, PartialEq, Eq, Structural)]
pub struct TransferOrder {
    pub from: Account,
    pub to: Account,
    pub amount: i128,
}

/// Which operation an event reports.
#[derive(Clone, Copy, Debug, PartialEq, Eq, Structural)]
pub enum EventKind {
    Deposit,
    Withdraw,
}

/// The event published after a successful deposit or withdrawal.
#[derive(Clone, Copy, Debug, PartialEq, Eq, Structural)]
pub struct LedgerEvent {
    pub kind: EventKind,
    pub user: u64,
    pub amount: i128,
    pub new_balance: i128,
}

/// The durable state of the ledger: the token configuration, set at most
/// once, and the balance table. A user without an entry has balance zero;
/// a withdrawal that empties a balance keeps the entry, readable as zero
/// either way.
pub struct DepositContract {
    token: Option<u64>,
    balances: HashMap<u64, i128>,
}

impl DepositContract {
    /// Whether the durable store holds an entry under `key`.
    pub closed spec fn has_entry(self, key: DataKey) -> bool {
        match key {
            DataKey::Token => self.token is Some,
            DataKey::Balance(user) => self.balances@.contains_key(user),
        }
    }

    /// Whether `initialize` has configured the token.
    pub open spec fn is_initialized(self) -> bool {
        self.has_entry(DataKey::Token)
    }

    /// The configured token identifier.
    pub closed spec fn token_id(self) -> u64
        recommends
            self.is_initialized(),
    {
        match self.token {
            Some(t) => t,
            None => 0,
        }
    }

    /// The recorded balance of `user`; zero for a user without an entry.
    pub closed spec fn balance_of(self, user: u64) -> int {
        if self.balances@.contains_key(user) {
            self.balances@[user] as int
        } else {
            0
        }
    }

    /// Well-formedness: no recorded balance is ever negative.
    pub open spec fn wf(self) -> bool {
        forall|user: u64| #[trigger] self.balance_of(user) >= 0
    }

    /// A fresh, unconfigured ledger with every balance zero.
    pub fn new() -> (c: Self)
        ensures
            c.wf(),
            !c.is_initialized(),
            forall|user: u64| #[trigger] c.balance_of(user) == 0,
    {
        DepositContract { token: None, balances: HashMap::new() }
    }

    /// Configure the token this ledger delegates transfers to. Allowed
    /// exactly once; a second call fails and changes nothing.
    pub fn initialize(&mut self, token: u64) -> (r: Result<(), LedgerError>)
        ensures
            initialize_spec(*old(self), *final(self), token, r),
            old(self).wf() ==> final(self).wf(),
    {
        match policy::initialize_verdict(self.token.is_some()) {
            Ok(()) => {
                self.token = Some(token);
                Ok(())
            },
            Err(e) => Err(e),
        }
    }

    /// The configured token identifier, or `NotInitialized` before
    /// `initialize`.
    pub fn get_token(&self) -> (r: Result<u64, LedgerError>)
        ensures
            get_token_spec(*self, r),
    {
        match self.token {
            Some(t) => Ok(t),
            None => Err(LedgerError::NotInitialized),
        }
    }

    /// The recorded balance of `user`; zero for a user never deposited to.
    /// A read needs no authorization and no token configuration.
    pub fn get_balance(&self, user: u64) -> (b: i128)
        ensures
            b as int == self.balance_of(user),
            self.wf() ==> b >= 0,
    {
        let b: i128 = match self.balances.get(&user) {
            Some(v) => *v,
            None => 0,
        };
        proof {
            if self.wf() {
                assert(self.balance_of(user) >= 0);
            }
        }
        b
    }

    /// Admission check of a deposit, to run before the token transfer:
    /// `auth_ok` is the oracle's verdict on the caller. On admission the
    /// returned order moves `amount` from the user's token account into the
    /// contract's custody account.
    pub fn prepare_deposit(&self, user: u64, amount: i128, auth_ok: bool) -> (r: Result<
        TransferOrder,
        LedgerError,
    >)
        ensures
            prepare_deposit_spec(*self, user, amount, auth_ok, r),
    {
        match policy::deposit_admission(self.token.is_some(), amount, auth_ok) {
            Ok(()) => Ok(
                TransferOrder { from: Account::User(user), to: Account::Contract, amount },
            ),
            Err(e) => Err(e),
        }
    }

    /// Admission check of a withdrawal, to run before the token transfer.
    /// The balance-sufficiency guard lives here, so an uncovered withdrawal
    /// never reaches the token service. On admission the returned order moves
    /// `amount` from the contract's custody account back to the user.
    pub fn prepare_withdraw(&self, user: u64, amount: i128, auth_ok: bool) -> (r: Result<
        TransferOrder,
        LedgerError,
    >)
        ensures
            prepare_withdraw_spec(*self, user, amount, auth_ok, r),
    {
        let current: i128 = self.get_balance(user);
        match policy::withdraw_admission(self.token.is_some(), current, amount, auth_ok) {
            Ok(()) => Ok(
                TransferOrder { from: Account::Contract, to: Account::User(user), amount },
            ),
            Err(e) => Err(e),
        }
    }

    /// Record a deposit after the host attempted the prepared transfer;
    /// `transfer_ok` is the token service's outcome. The admission guards are
    /// re-checked, so the contract below covers every caller: on any refusal
    /// the state is exactly what it was. On success the user's balance rises
    /// by `amount`, every other balance and the token configuration stay, and
    /// the returned event carries the new balance.
    pub fn deposit(&mut self, user: u64, amount: i128, transfer_ok: bool) -> (r: Result<
        LedgerEvent,
        LedgerError,
    >)
        requires
            amount > 0 && old(self).is_initialized() && transfer_ok ==> old(self).balance_of(user)
                + amount <= i128::MAX,
        ensures
            deposit_spec(*old(self), *final(self), user, amount, transfer_ok, r),
            old(self).wf() ==> final(self).wf(),
    {
        let initialized = self.token.is_some();
        let current: i128 = self.get_balance(user);
        match policy::deposit_outcome(initialized, current, amount, transfer_ok) {
            Ok(new_balance) => {
                self.balances.insert(user, new_balance);
                Ok(LedgerEvent { kind: EventKind::Deposit, user, amount, new_balance })
            },
            Err(e) => Err(e),
        }
    }

    /// Record a withdrawal after the host attempted the prepared transfer;
    /// `transfer_ok` is the token service's outcome. The admission guards are
    /// re-checked, so the contract below covers every caller: on any refusal
    /// the state is exactly what it was. On success the user's balance falls
    /// by `amount` — never below zero — every other balance and the token
    /// configuration stay, and the returned event carries the new balance.
    pub fn withdraw(&mut self, user: u64, amount: i128, transfer_ok: bool) -> (r: Result<
        LedgerEvent,
        LedgerError,
    >)
        ensures
            withdraw_spec(*old(self), *final(self), user, amount, transfer_ok, r),
            old(self).wf() ==> final(self).wf(),
    {
        let initialized = self.token.is_some();
        let current: i128 = self.get_balance(user);
        match policy::withdraw_outcome(initialized, current, amount, transfer_ok) {
            Ok(new_balance) => {
                self.balances.insert(user, new_balance);
                Ok(LedgerEvent { kind: EventKind::Withdraw, user, amount, new_balance })
            },
            Err(e) => Err(e),
        }
    }
}

/// Every balance reads the same in `pre` and `post`.
pub open spec fn balances_unchanged(pre: DepositContract, post: DepositContract) -> bool {
    forall|user: u64| #[trigger] post.balance_of(user) == pre.balance_of(user)
}

/// Full behaviour of `initialize`: the first call stores the token and
/// touches no balance; any later call fails with `AlreadyInitialized` and
/// changes nothing.
pub open spec fn initialize_spec(
    pre: DepositContract,
    post: DepositContract,
    token: u64,
    r: Result<(), LedgerError>,
) -> bool {
    if pre.is_initialized() {
        r == Err::<(), LedgerError>(LedgerError::AlreadyInitialized) && post == pre
    } else {
        &&& r == Ok::<(), LedgerError>(())
        &&& post.is_initialized()
        &&& post.token_id() == token
        &&& balances_unchanged(pre, post)
    }
}

/// Full behaviour of `get_token`: the configured identifier once set, the
/// error before.
pub open spec fn get_token_spec(s: DepositContract, r: Result<u64, LedgerError>) -> bool {
    if s.is_initialized() {
        r == Ok::<u64, LedgerError>(s.token_id())
    } else {
        r == Err::<u64, LedgerError>(LedgerError::NotInitialized)
    }
}

/// Full behaviour of `prepare_deposit`, guard by guard, in order.
pub open spec fn prepare_deposit_spec(
    s: DepositContract,
    user: u64,
    amount: i128,
    auth_ok: bool,
    r: Result<TransferOrder, LedgerError>,
) -> bool {
    if !auth_ok {
        r == Err::<TransferOrder, LedgerError>(LedgerError::AuthorizationFailed)
    } else if amount <= 0 {
        r == Err::<TransferOrder, LedgerError>(LedgerError::InvalidAmount)
    } else if !s.is_initialized() {
        r == Err::<TransferOrder, LedgerError>(LedgerError::NotInitialized)
    } else {
        r == Ok::<TransferOrder, LedgerError>(
            TransferOrder { from: Account::User(user), to: Account::Contract, amount },
        )
    }
}

/// Full behaviour of `prepare_withdraw`, guard by guard, in order; the
/// sufficiency guard compares against the recorded balance.
pub open spec fn prepare_withdraw_spec(
    s: DepositContract,
    user: u64,
    amount: i128,
    auth_ok: bool,
    r: Result<TransferOrder, LedgerError>,
) -> bool {
    if !auth_ok {
        r == Err::<TransferOrder, LedgerError>(LedgerError::AuthorizationFailed)
    } else if amount <= 0 {
        r == Err::<TransferOrder, LedgerError>(LedgerError::InvalidAmount)
    } else if !s.is_initialized() {
        r == Err::<TransferOrder, LedgerError>(LedgerError::NotInitialized)
    } else if s.balance_of(user) < amount {
        r == Err::<TransferOrder, LedgerError>(LedgerError::InsufficientBalance)
    } else {
        r == Ok::<TransferOrder, LedgerError>(
            TransferOrder { from: Account::Contract, to: Account::User(user), amount },
        )
    }
}

/// Full behaviour of `deposit`: each refusal with the state unchanged, and
/// the successful transition — the user's balance raised by exactly
/// `amount`, every other balance and the token configuration untouched.
pub open spec fn deposit_spec(
    pre: DepositContract,
    post: DepositContract,
    user: u64,
    amount: i128,
    transfer_ok: bool,
    r: Result<LedgerEvent, LedgerError>,
) -> bool {
    if amount <= 0 {
        r == Err::<LedgerEvent, LedgerError>(LedgerError::InvalidAmount) && post == pre
    } else if !pre.is_initialized() {
        r == Err::<LedgerEvent, LedgerError>(LedgerError::NotInitialized) && post == pre
    } else if !transfer_ok {
        r == Err::<LedgerEvent, LedgerError>(LedgerError::TransferFailed) && post == pre
    } else {
        &&& r == Ok::<LedgerEvent, LedgerError>(
            LedgerEvent {
                kind: EventKind::Deposit,
                user,
                amount,
                new_balance: (pre.balance_of(user) + amount) as i128,
            },
        )
        &&& post.is_initialized()
        &&& post.token_id() == pre.token_id()
        &&& post.balance_of(user) == pre.balance_of(user) + amount
        &&& forall|u: u64| u != user ==> #[trigger] post.balance_of(u) == pre.balance_of(u)
    }
}

/// Full behaviour of `withdraw`: each refusal with the state unchanged, and
/// the successful transition — the user's balance lowered by exactly
/// `amount`, every other balance and the token configuration untouched.
pub open spec fn withdraw_spec(
    pre: DepositContract,
    post: DepositContract,
    user: u64,
    amount: i128,
    transfer_ok: bool,
    r: Result<LedgerEvent, LedgerError>,
) -> bool {
    if amount <= 0 {
        r == Err::<LedgerEvent, LedgerError>(LedgerError::InvalidAmount) && post == pre
    } else if !pre.is_initialized() {
        r == Err::<LedgerEvent, LedgerError>(LedgerError::NotInitialized) && post == pre
    } else if pre.balance_of(user) < amount {
        r == Err::<LedgerEvent, LedgerError>(LedgerError::InsufficientBalance) && post == pre
    } else if !transfer_ok {
        r == Err::<LedgerEvent, LedgerError>(LedgerError::TransferFailed) && post == pre
    } else {
        &&& r == Ok::<LedgerEvent, LedgerError>(
            LedgerEvent {
                kind: EventKind::Withdraw,
                user,
                amount,
                new_balance: (pre.balance_of(user) - amount) as i128,
            },
        )
        &&& post.is_initialized()
        &&& post.token_id() == pre.token_id()
        &&& post.balance_of(user) == pre.balance_of(user) - amount
        &&& forall|u: u64| u != user ==> #[trigger] post.balance_of(u) == pre.balance_of(u)
    }
}

} // verus!

use custodial_ledger::errors::LedgerError;
use custodial_ledger::ledger::{Account, DepositContract, EventKind, TransferOrder};

/// A token service stand-in for the tests: two external token accounts, one
/// for the user and one for the contract's custody, moved by honoring the
/// ledger's transfer orders.
struct ExternalAccounts {
    user: i128,
    contract: i128,
}

impl ExternalAccounts {
    fn honor(&mut self, order: &TransferOrder, user: u64) {
        match (order.from, order.to) {
            (Account::User(u), Account::Contract) => {
                assert_eq!(u, user);
                self.user -= order.amount;
                self.contract += order.amount;
            }
            (Account::Contract, Account::User(u)) => {
                assert_eq!(u, user);
                self.contract -= order.amount;
                self.user += order.amount;
            }
            _ => panic!("unexpected transfer order"),
        }
    }
}

#[test]
fn test_initialize() {
    let mut contract = DepositContract::new();
    let token: u64 = 40;
    assert_eq!(contract.initialize(token), Ok(()));
    assert_eq!(contract.get_token(), Ok(token));
}

#[test]
fn test_initialize_twice() {
    let mut contract = DepositContract::new();
    let token: u64 = 40;
    assert_eq!(contract.initialize(token), Ok(()));
    assert_eq!(contract.initialize(token), Err(LedgerError::AlreadyInitialized));
}

#[test]
fn test_deposit() {
    let mut contract = DepositContract::new();
    let token: u64 = 40;
    let user: u64 = 7;
    contract.initialize(token).unwrap();

    // Mint tokens to the user's external account.
    let mut external = ExternalAccounts { user: 1000, contract: 0 };

    // Deposit tokens.
    let order = contract.prepare_deposit(user, 500, true).unwrap();
    assert_eq!(
        order,
        TransferOrder { from: Account::User(user), to: Account::Contract, amount: 500 }
    );
    external.honor(&order, user);
    let event = contract.deposit(user, 500, true).unwrap();
    assert_eq!(event.kind, EventKind::Deposit);
    assert_eq!(event.new_balance, 500);

    // Check balances.
    assert_eq!(contract.get_balance(user), 500);
    assert_eq!(external.contract, 500);
    assert_eq!(external.user, 500);
}

#[test]
fn test_withdraw() {
    let mut contract = DepositContract::new();
    let token: u64 = 40;
    let user: u64 = 7;
    contract.initialize(token).unwrap();
    let mut external = ExternalAccounts { user: 1000, contract: 0 };

    // Deposit and withdraw.
    let deposit_order = contract.prepare_deposit(user, 500, true).unwrap();
    external.honor(&deposit_order, user);
    contract.deposit(user, 500, true).unwrap();
    let withdraw_order = contract.prepare_withdraw(user, 200, true).unwrap();
    assert_eq!(
        withdraw_order,
        TransferOrder { from: Account::Contract, to: Account::User(user), amount: 200 }
    );
    external.honor(&withdraw_order, user);
    let event = contract.withdraw(user, 200, true).unwrap();
    assert_eq!(event.kind, EventKind::Withdraw);
    assert_eq!(event.new_balance, 300);

    assert_eq!(contract.get_balance(user), 300);
    assert_eq!(external.user, 700);
}

#[test]
fn test_withdraw_insufficient_balance() {
    let mut contract = DepositContract::new();
    let token: u64 = 40;
    let user: u64 = 7;
    contract.initialize(token).unwrap();
    let mut external = ExternalAccounts { user: 1000, contract: 0 };

    let order = contract.prepare_deposit(user, 500, true).unwrap();
    external.honor(&order, user);
    contract.deposit(user, 500, true).unwrap();

    // The admission check refuses the uncovered withdrawal before any
    // transfer happens, and the recorded balance stays.
    assert_eq!(
        contract.prepare_withdraw(user, 600, true),
        Err(LedgerError::InsufficientBalance)
    );
    assert_eq!(contract.withdraw(user, 600, true), Err(LedgerError::InsufficientBalance));
    assert_eq!(contract.get_balance(user), 500);
}

#[test]
fn test_deposit_zero_amount() {
    let mut contract = DepositContract::new();
    let token: u64 = 40;
    let user: u64 = 7;
    contract.initialize(token).unwrap();

    assert_eq!(contract.prepare_deposit(user, 0, true), Err(LedgerError::InvalidAmount));
    assert_eq!(contract.deposit(user, 0, true), Err(LedgerError::InvalidAmount));
    assert_eq!(contract.get_balance(user), 0);
}

#[test]
fn test_negative_amounts_rejected() {
    let mut contract = DepositContract::new();
    contract.initialize(40).unwrap();
    let user: u64 = 7;

    assert_eq!(contract.prepare_deposit(user, -25, true), Err(LedgerError::InvalidAmount));
    assert_eq!(contract.deposit(user, -25, true), Err(LedgerError::InvalidAmount));
    assert_eq!(contract.prepare_withdraw(user, -25, true), Err(LedgerError::InvalidAmount));
    assert_eq!(contract.withdraw(user, -25, true), Err(LedgerError::InvalidAmount));
    assert_eq!(contract.get_balance(user), 0);
}

#[test]
fn test_operations_before_initialize() {
    let mut contract = DepositContract::new();
    let user: u64 = 7;

    assert_eq!(contract.get_token(), Err(LedgerError::NotInitialized));
    assert_eq!(contract.prepare_deposit(user, 100, true), Err(LedgerError::NotInitialized));
    assert_eq!(contract.deposit(user, 100, true), Err(LedgerError::NotInitialized));
    assert_eq!(contract.prepare_withdraw(user, 100, true), Err(LedgerError::NotInitialized));
    assert_eq!(contract.withdraw(user, 100, true), Err(LedgerError::NotInitialized));
    assert_eq!(contract.get_balance(user), 0);
}

#[test]
fn test_unauthorized_caller_rejected() {
    let mut contract = DepositContract::new();
    contract.initialize(40).unwrap();
    let user: u64 = 7;

    assert_eq!(
        contract.prepare_deposit(user, 100, false),
        Err(LedgerError::AuthorizationFailed)
    );
    assert_eq!(
        contract.prepare_withdraw(user, 100, false),
        Err(LedgerError::AuthorizationFailed)
    );
}

#[test]
fn test_failed_transfer_leaves_balance() {
    let mut contract = DepositContract::new();
    contract.initialize(40).unwrap();
    let user: u64 = 7;

    assert_eq!(contract.deposit(user, 100, false), Err(LedgerError::TransferFailed));
    assert_eq!(contract.get_balance(user), 0);

    contract.deposit(user, 100, true).unwrap();
    assert_eq!(contract.withdraw(user, 50, false), Err(LedgerError::TransferFailed));
    assert_eq!(contract.get_balance(user), 100);
}

#[test]
fn test_withdraw_entire_balance() {
    let mut contract = DepositContract::new();
    contract.initialize(40).unwrap();
    let user: u64 = 7;

    contract.deposit(user, 300, true).unwrap();
    let event = contract.withdraw(user, 300, true).unwrap();
    assert_eq!(event.new_balance, 0);
    assert_eq!(contract.get_balance(user), 0);
}

#[test]
fn test_fresh_user_balance_is_zero() {
    let mut contract = DepositContract::new();
    let untouched: u64 = 99;
    assert_eq!(contract.get_balance(untouched), 0);

    contract.initialize(40).unwrap();
    contract.deposit(7, 500, true).unwrap();
    contract.withdraw(7, 100, true).unwrap();
    assert_eq!(contract.get_balance(untouched), 0);
}

#[test]
fn test_second_initialize_keeps_first_token() {
    let mut contract = DepositContract::new();
    let first: u64 = 41;
    let second: u64 = 42;

    assert_eq!(contract.initialize(first), Ok(()));
    assert_eq!(contract.initialize(second), Err(LedgerError::AlreadyInitialized));
    assert_eq!(contract.get_token(), Ok(first));
}

#[test]
fn test_deposit_withdraw_scenario() {
    let mut contract = DepositContract::new();
    let token: u64 = 40;
    let user_a: u64 = 1;
    contract.initialize(token).unwrap();

    let event = contract.deposit(user_a, 500, true).unwrap();
    assert_eq!(event.user, user_a);
    assert_eq!(event.amount, 500);
    assert_eq!(contract.get_balance(user_a), 500);

    let event = contract.withdraw(user_a, 200, true).unwrap();
    assert_eq!(event.user, user_a);
    assert_eq!(event.amount, 200);
    assert_eq!(contract.get_balance(user_a), 300);

    assert_eq!(contract.withdraw(user_a, 400, true), Err(LedgerError::InsufficientBalance));
    assert_eq!(contract.get_balance(user_a), 300);
}

#[test]
fn test_balances_kept_per_user() {
    let mut contract = DepositContract::new();
    contract.initialize(40).unwrap();

    contract.deposit(1, 250, true).unwrap();
    contract.deposit(2, 125, true).unwrap();
    contract.withdraw(1, 50, true).unwrap();

    assert_eq!(contract.get_balance(1), 200);
    assert_eq!(contract.get_balance(2), 125);
}

use ledger_state::balances::{Config, Pallet};
use ledger_state::support::DispatchError;

struct TestConfig;

impl Config for TestConfig {
    type Balance = u128;
}

impl ledger_state::system::Config for TestConfig {
    type AccountId = String;
    type BlockNumber = u64;
    type Nonce = u32;
}

fn alice() -> String {
    "Alice".to_string()
}

fn bob() -> String {
    "Bob".to_string()
}

#[test]
fn init_balances() {
    let mut balances = Pallet::<TestConfig>::new();
    assert_eq!(balances.balance(&"Eduardo".to_string()), 0);
    balances.set_balance(&"Eduardo".to_string(), 20);
    assert_eq!(balances.balance(&"Eduardo".to_string()), 20);
}

#[test]
fn transfer_balance() {
    let mut balances = Pallet::<TestConfig>::new();
    balances.set_balance(&"Alice".to_string(), 100);
    balances.set_balance(&"Bob".to_string(), 50);

    assert_eq!(
        balances
            .transfer("Alice".to_string(), "Bob".to_string(), 600)
            .map_err(|error| error.message()),
        Err("Insufficient funds")
    );

    assert_eq!(
        balances.transfer("Alice".to_string(), "Bob".to_string(), 50),
        Ok(())
    );

    assert_eq!(balances.balance(&"Alice".to_string()), 50);
    assert_eq!(balances.balance(&"Bob".to_string()), 100);
}

#[test]
fn unknown_account_holds_zero() {
    let mut balances = Pallet::<TestConfig>::new();
    assert_eq!(balances.balance(&alice()), 0);
    balances.set_balance(&bob(), 7);
    assert_eq!(balances.balance(&alice()), 0);
    assert_eq!(balances.balance(&"Carol".to_string()), 0);
}

#[test]
fn set_balance_overwrites_and_leaves_others() {
    let mut balances = Pallet::<TestConfig>::new();
    balances.set_balance(&alice(), 100);
    balances.set_balance(&bob(), 50);
    balances.set_balance(&alice(), 3);
    assert_eq!(balances.balance(&alice()), 3);
    assert_eq!(balances.balance(&bob()), 50);
    balances.set_balance(&alice(), 0);
    assert_eq!(balances.balance(&alice()), 0);
    balances.set_balance(&bob(), u128::MAX);
    assert_eq!(balances.balance(&bob()), u128::MAX);
}

#[test]
fn transfer_above_balance_changes_nothing() {
    let mut balances = Pallet::<TestConfig>::new();
    balances.set_balance(&alice(), 100);
    balances.set_balance(&bob(), 50);
    assert_eq!(
        balances.transfer(alice(), bob(), 101),
        Err(DispatchError::InsufficientFunds)
    );
    assert_eq!(balances.balance(&alice()), 100);
    assert_eq!(balances.balance(&bob()), 50);
}

#[test]
fn transfer_from_unknown_account_is_refused() {
    let mut balances = Pallet::<TestConfig>::new();
    assert_eq!(
        balances.transfer(alice(), bob(), 1),
        Err(DispatchError::InsufficientFunds)
    );
    assert_eq!(balances.balance(&alice()), 0);
    assert_eq!(balances.balance(&bob()), 0);
}

#[test]
fn transfer_moves_amount_and_keeps_sum() {
    let mut balances = Pallet::<TestConfig>::new();
    balances.set_balance(&alice(), 100);
    balances.set_balance(&bob(), 50);
    balances.set_balance(&"Carol".to_string(), 9);
    assert_eq!(balances.transfer(alice(), bob(), 30), Ok(()));
    assert_eq!(balances.balance(&alice()), 70);
    assert_eq!(balances.balance(&bob()), 80);
    assert_eq!(balances.balance(&alice()) + balances.balance(&bob()), 150);
    assert_eq!(balances.balance(&"Carol".to_string()), 9);
}

#[test]
fn transfer_of_whole_balance_to_unknown_account() {
    let mut balances = Pallet::<TestConfig>::new();
    balances.set_balance(&alice(), 100);
    assert_eq!(balances.transfer(alice(), bob(), 100), Ok(()));
    assert_eq!(balances.balance(&alice()), 0);
    assert_eq!(balances.balance(&bob()), 100);
}

#[test]
fn transfer_of_nothing_succeeds() {
    let mut balances = Pallet::<TestConfig>::new();
    balances.set_balance(&bob(), u128::MAX);
    assert_eq!(balances.transfer(alice(), bob(), 0), Ok(()));
    assert_eq!(balances.balance(&alice()), 0);
    assert_eq!(balances.balance(&bob()), u128::MAX);
}

#[test]
fn transfer_that_overflows_changes_nothing() {
    let mut balances = Pallet::<TestConfig>::new();
    balances.set_balance(&alice(), 100);
    balances.set_balance(&bob(), u128::MAX - 9);
    assert_eq!(
        balances.transfer(alice(), bob(), 10),
        Err(DispatchError::Overflow)
    );
    assert_eq!(balances.balance(&alice()), 100);
    assert_eq!(balances.balance(&bob()), u128::MAX - 9);
    assert_eq!(balances.transfer(alice(), bob(), 9), Ok(()));
    assert_eq!(balances.balance(&alice()), 91);
    assert_eq!(balances.balance(&bob()), u128::MAX);
}

#[test]
fn insufficient_funds_comes_before_overflow() {
    let mut balances = Pallet::<TestConfig>::new();
    balances.set_balance(&alice(), 1);
    balances.set_balance(&bob(), u128::MAX);
    assert_eq!(
        balances.transfer(alice(), bob(), 2),
        Err(DispatchError::InsufficientFunds)
    );
}

#[test]
fn self_transfer_of_nothing_changes_nothing() {
    let mut balances = Pallet::<TestConfig>::new();
    balances.set_balance(&alice(), 100);
    assert_eq!(balances.transfer(alice(), alice(), 0), Ok(()));
    assert_eq!(balances.balance(&alice()), 100);
}

#[test]
fn self_transfer_above_balance_is_refused() {
    let mut balances = Pallet::<TestConfig>::new();
    balances.set_balance(&alice(), 100);
    assert_eq!(
        balances.transfer(alice(), alice(), 101),
        Err(DispatchError::InsufficientFunds)
    );
    assert_eq!(balances.balance(&alice()), 100);
}

#[test]
fn self_transfer_within_balance_changes_nothing() {
    let mut balances = Pallet::<TestConfig>::new();
    balances.set_balance(&alice(), 100);
    balances.set_balance(&bob(), 50);
    assert_eq!(balances.transfer(alice(), alice(), 30), Ok(()));
    assert_eq!(balances.balance(&alice()), 100);
    assert_eq!(balances.transfer(alice(), alice(), 100), Ok(()));
    assert_eq!(balances.balance(&alice()), 100);
    assert_eq!(balances.balance(&bob()), 50);
}

#[test]
fn self_transfer_at_largest_balance_succeeds() {
    let mut balances = Pallet::<TestConfig>::new();
    balances.set_balance(&alice(), u128::MAX);
    assert_eq!(balances.transfer(alice(), alice(), 1), Ok(()));
    assert_eq!(balances.balance(&alice()), u128::MAX);
    assert_eq!(balances.transfer(alice(), alice(), u128::MAX), Ok(()));
    assert_eq!(balances.balance(&alice()), u128::MAX);
}

#[test]
fn self_transfer_of_unknown_account() {
    let mut balances = Pallet::<TestConfig>::new();
    assert_eq!(balances.transfer(alice(), alice(), 0), Ok(()));
    assert_eq!(
        balances.transfer(alice(), alice(), 1),
        Err(DispatchError::InsufficientFunds)
    );
    assert_eq!(balances.balance(&alice()), 0);
}

#[test]
fn failed_transfer_leaves_pallet_usable() {
    let mut balances = Pallet::<TestConfig>::new();
    balances.set_balance(&alice(), 10);
    assert!(balances.transfer(alice(), bob(), 11).is_err());
    assert_eq!(balances.transfer(alice(), bob(), 10), Ok(()));
    assert_eq!(balances.transfer(bob(), alice(), 4), Ok(()));
    assert_eq!(balances.balance(&alice()), 4);
    assert_eq!(balances.balance(&bob()), 6);
}

#[test]
fn error_messages() {
    assert_eq!(DispatchError::InsufficientFunds.message(), "Insufficient funds");
    assert_eq!(DispatchError::Overflow.message(), "Overflow");
    assert_ne!(DispatchError::InsufficientFunds, DispatchError::Overflow);
}

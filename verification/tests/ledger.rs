use xtc::ledger::{Ledger, TxError};
use xtc::types::Account;

fn alice() -> Account {
    Account(1)
}

fn bob() -> Account {
    Account(2)
}

fn charlie() -> Account {
    Account(3)
}

#[test]
fn approve_and_allowances() {
    let mut ledger = Ledger::default();

    // empty ledger has zero allowance
    assert_eq!(ledger.allowance(alice(), bob()), 0);

    // inserting non-zero into empty ledger and read back the allowance
    ledger = Ledger::default();
    assert_eq!(ledger.approve(alice(), bob(), 1000, 0), Ok(()));
    assert_eq!(ledger.allowance(alice(), bob()), 1000);

    // overriding allowance with non-zero and read back the allowance
    ledger = Ledger::default();
    assert_eq!(ledger.approve(alice(), bob(), 1000, 0), Ok(()));
    assert_eq!(ledger.approve(alice(), bob(), 2000, 0), Ok(()));
    assert_eq!(ledger.allowance(alice(), bob()), 2000);

    // overriding allowance with zero and read back the allowance
    ledger = Ledger::default();
    assert_eq!(ledger.approve(alice(), bob(), 1000, 0), Ok(()));
    assert_eq!(ledger.approve(alice(), bob(), 0, 0), Ok(()));
    // allowance removed from the ledger
    assert_eq!(ledger.allowances_count(), 0);
    // allowance returns zero
    assert_eq!(ledger.allowance(alice(), bob()), 0);

    // alice approve more than one person
    ledger = Ledger::default();
    assert_eq!(ledger.approve(alice(), bob(), 1000, 0), Ok(()));
    assert_eq!(ledger.approve(alice(), charlie(), 2000, 0), Ok(()));
    assert_eq!(ledger.allowance(alice(), bob()), 1000);
    assert_eq!(ledger.allowance(alice(), charlie()), 2000);
    // remove bob's allowance, charlie still has his
    assert_eq!(ledger.approve(alice(), bob(), 0, 0), Ok(()));
    assert_eq!(ledger.allowance(alice(), bob()), 0);
    assert_eq!(ledger.allowance(alice(), charlie()), 2000);
    // bob is removed from the allowances map
    assert_eq!(ledger.allowances_count(), 1);
}

#[test]
fn approve_and_transfer_no_fees() {
    // alice has less balance than she approved bob to retrieve
    let mut ledger = Ledger::default();
    ledger.deposit(alice(), 500);
    assert_eq!(ledger.approve(alice(), bob(), 1000, 0), Ok(()));
    assert_eq!(ledger.balance(alice()), 500);
    assert_eq!(ledger.balance(bob()), 0);
    // charlie tries to initiate the transfer from alice to bob
    assert_eq!(
        ledger.transfer_from(charlie(), alice(), bob(), 400, 0).unwrap_err(),
        TxError::InsufficientAllowance
    );
    assert_eq!(ledger.transfer_from(bob(), alice(), charlie(), 400, 0), Ok(()));
    // alowances changed
    assert_eq!(ledger.allowance(alice(), bob()), 600);
    // balances changed
    assert_eq!(ledger.balance(alice()), 100);
    assert_eq!(ledger.balance(bob()), 0);
    assert_eq!(ledger.balance(charlie()), 400);
    // bob tries withdrawing all his allowance, but alice doesn't have enough money
    assert_eq!(
        ledger.transfer_from(bob(), alice(), charlie(), 600, 0).unwrap_err(),
        TxError::InsufficientBalance
    );

    // alice has more balance then, she approved bob to retrieve
    let mut ledger = Ledger::default();
    ledger.deposit(alice(), 1000);
    assert_eq!(ledger.approve(alice(), bob(), 500, 0), Ok(()));
    assert_eq!(ledger.balance(alice()), 1000);
    assert_eq!(ledger.balance(bob()), 0);
    assert_eq!(ledger.balance(charlie()), 0);
    // bob tries to retrieve more than his allowance
    assert_eq!(
        ledger.transfer_from(bob(), alice(), charlie(), 600, 0).unwrap_err(),
        TxError::InsufficientAllowance
    );
    // alowances didn't change
    assert_eq!(ledger.allowance(alice(), bob()), 500);
    // balances didn't change
    assert_eq!(ledger.balance(alice()), 1000);
    assert_eq!(ledger.balance(bob()), 0);
    assert_eq!(ledger.balance(charlie()), 0);
}

#[test]
fn approve_and_transfer_with_fees() {
    let mut ledger = Ledger::default();
    ledger.deposit(alice(), 500);
    assert_eq!(ledger.approve(alice(), bob(), 1000, 10), Ok(()));
    assert_eq!(ledger.balance(alice()), 490);
    assert_eq!(ledger.balance(bob()), 0);
    // the actual approved amount contains the fees
    assert_eq!(ledger.allowance(alice(), bob()), 1010);
    assert_eq!(ledger.transfer_from(bob(), alice(), bob(), 400, 10), Ok(()));

    // bob received the right amount
    assert_eq!(ledger.balance(bob()), 400);
    // alice balance decreased with the value and with the fee
    ledger.deposit(alice(), 90);
    // the allowance decreased with the value and with the fee
    assert_eq!(ledger.allowance(alice(), bob()), 600);
}

#[test]
fn balance() {
    let mut ledger = Ledger::default();
    assert_eq!(ledger.balance(alice()), 0);
    assert_eq!(ledger.balance(bob()), 0);
    assert_eq!(ledger.balance(charlie()), 0);

    // Deposit should work.
    ledger.deposit(alice(), 1000);
    assert_eq!(ledger.balance(alice()), 1000);
    assert_eq!(ledger.balance(bob()), 0);
    assert_eq!(ledger.balance(charlie()), 0);

    assert!(ledger.withdraw(alice(), 100).is_ok());
    assert_eq!(ledger.balance(alice()), 900);
    assert_eq!(ledger.balance(bob()), 0);
    assert_eq!(ledger.balance(charlie()), 0);

    assert!(ledger.withdraw(alice(), 1000).is_err());
    assert_eq!(ledger.balance(alice()), 900);

    ledger.deposit(alice(), 100);
    assert!(ledger.withdraw(alice(), 1000).is_ok());
    assert_eq!(ledger.balance(alice()), 0);
    assert_eq!(ledger.balance(bob()), 0);
    assert_eq!(ledger.balance(charlie()), 0);
}

/// Approve then exhaust part of the allowance: the allowance shrinks by the
/// amount plus the fee, the owner pays amount and both fees, the spender
/// receives exactly the amount.
#[test]
fn approve_and_transfer_from_exhaustion() {
    let f: u64 = 10;
    let mut ledger = Ledger::default();
    ledger.deposit(alice(), 10_000);
    assert_eq!(ledger.approve(alice(), bob(), 1_000, f), Ok(()));
    assert_eq!(ledger.allowance(alice(), bob()), 1_000 + f);
    assert_eq!(ledger.balance(alice()), 10_000 - f);

    assert_eq!(ledger.transfer_from(bob(), alice(), charlie(), 400, f), Ok(()));
    assert_eq!(ledger.allowance(alice(), bob()), 1_000 + f - 400 - f);
    assert_eq!(ledger.balance(alice()), 10_000 - f - 400 - f);
    assert_eq!(ledger.balance(charlie()), 400);

    // Drawing exactly the rest destroys the allowance entry.
    assert_eq!(ledger.transfer_from(bob(), alice(), charlie(), 600 - f, f), Ok(()));
    assert_eq!(ledger.allowance(alice(), bob()), 0);
    assert_eq!(ledger.allowances_count(), 0);
    assert_eq!(ledger.balance(charlie()), 400 + 600 - f);
}

/// No zero entries: balances and allowances that reach zero disappear from
/// the maps.
#[test]
fn no_zero_entries() {
    let mut ledger = Ledger::default();
    ledger.deposit(alice(), 100);
    assert_eq!(ledger.balances_count(), 1);
    assert!(ledger.withdraw(alice(), 100).is_ok());
    assert_eq!(ledger.balances_count(), 0);
    assert_eq!(ledger.balance(alice()), 0);

    assert_eq!(ledger.approve(alice(), bob(), 5, 0), Ok(()));
    assert_eq!(ledger.allowances_count(), 1);
    assert_eq!(ledger.approve(alice(), bob(), 0, 0), Ok(()));
    assert_eq!(ledger.allowances_count(), 0);
}

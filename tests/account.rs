use ledger::account::{Account, AccountRecord};
use ledger::error::TxError;
use ledger::money::Money;

#[test]
fn deposit_into_fresh_account() {
    let mut a = Account::new(7);
    assert_eq!(a.deposit(Money(50_000)), Ok(()));
    assert_eq!(a.available, Money(50_000));
    assert_eq!(a.held, Money(0));
    assert!(!a.locked);
    assert_eq!(a.client_id, 7);
}

#[test]
fn withdraw_more_than_available() {
    let mut a = Account::new(1);
    a.deposit(Money(10_000)).unwrap();
    let before = a;
    assert_eq!(a.withdraw(Money(10_001)), Err(TxError::InsufficientFunds));
    assert_eq!(a, before);
    assert_eq!(a.withdraw(Money(10_000)), Ok(()));
    assert_eq!(a.available, Money(0));
}

#[test]
fn withdraw_overflow() {
    let mut a = Account::new(1);
    a.dispute(Money(5)).unwrap();
    let before = a;
    assert_eq!(a.withdraw(Money(i64::MAX)), Err(TxError::Overflow));
    assert_eq!(a, before);
}

#[test]
fn deposit_overflow() {
    let mut a = Account::new(1);
    a.deposit(Money(i64::MAX)).unwrap();
    assert_eq!(a.deposit(Money(1)), Err(TxError::Overflow));
    assert_eq!(a.available, Money(i64::MAX));
}

#[test]
fn dispute_and_resolve() {
    let mut a = Account::new(1);
    a.deposit(Money(30_000)).unwrap();
    let before = a;
    a.dispute(Money(20_000)).unwrap();
    assert_eq!(a.available, Money(10_000));
    assert_eq!(a.held, Money(20_000));
    assert_eq!(a.total_balance(), Ok(Money(30_000)));
    a.resolve(Money(20_000)).unwrap();
    assert_eq!(a, before);
}

#[test]
fn chargeback_locks_account() {
    let mut a = Account::new(1);
    a.deposit(Money(30_000)).unwrap();
    a.dispute(Money(30_000)).unwrap();
    assert_eq!(a.chargeback(Money(30_000)), Ok(()));
    assert_eq!(a.held, Money(0));
    assert_eq!(a.available, Money(0));
    assert!(a.locked);
    assert_eq!(a.check_unlocked(), Err(TxError::LockedAccount));
    assert_eq!(a.deposit(Money(1)), Err(TxError::LockedAccount));
    assert_eq!(a.withdraw(Money(0)), Err(TxError::LockedAccount));
}

#[test]
fn total_overflow_in_record() {
    let mut a = Account::new(3);
    a.deposit(Money(i64::MAX)).unwrap();
    a.dispute(Money(1)).unwrap();
    a.deposit(Money(1)).unwrap();
    assert_eq!(a.total_balance(), Err(TxError::Overflow));
    assert_eq!(AccountRecord::from_account(&a), Err(TxError::Overflow));
}

#[test]
fn record_of_account() {
    let mut a = Account::new(4);
    a.deposit(Money(25_000)).unwrap();
    a.dispute(Money(5_000)).unwrap();
    let r = AccountRecord::from_account(&a).unwrap();
    assert_eq!(r.client, 4);
    assert_eq!(r.available, Money(20_000));
    assert_eq!(r.held, Money(5_000));
    assert_eq!(r.total, Money(25_000));
    assert!(!r.locked);
}

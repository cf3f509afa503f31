use ledger::account::{Account, AccountRecord};
use ledger::bank::Bank;
use ledger::error::{BankError, TxError};
use ledger::money::Money;
use ledger::tx::{is_known_kind, Tx, TxRecord};

fn find(bank: &Bank, client: u16) -> Account {
    let all = bank.accounts();
    let found: Vec<&Account> = all.iter().filter(|a| a.client_id == client).collect();
    assert_eq!(found.len(), 1);
    *found[0]
}

#[test]
fn end_to_end_scenario() {
    let mut bank = Bank::new();
    assert_eq!(bank.process(Tx::Deposit { client: 1, id: 1, amount: Money(50_000) }), Ok(()));
    assert_eq!(bank.process(Tx::Deposit { client: 2, id: 2, amount: Money(30_000) }), Ok(()));
    assert_eq!(bank.process(Tx::Withdrawal { client: 1, id: 3, amount: Money(15_000) }), Ok(()));
    assert_eq!(bank.process(Tx::Dispute { client: 1, id: 1 }), Ok(()));
    assert_eq!(bank.accounts().len(), 2);

    let one = AccountRecord::from_account(&find(&bank, 1)).unwrap();
    assert_eq!(one.available.to_text(), "-1.5000");
    assert_eq!(one.held.to_text(), "5.0000");
    assert_eq!(one.total.to_text(), "3.5000");
    assert!(!one.locked);

    let two = AccountRecord::from_account(&find(&bank, 2)).unwrap();
    assert_eq!(two.available.to_text(), "3.0000");
    assert_eq!(two.held.to_text(), "0.0000");
    assert_eq!(two.total.to_text(), "3.0000");
    assert!(!two.locked);
}

#[test]
fn unknown_transaction_changes_nothing() {
    let mut bank = Bank::default();
    bank.process(Tx::Deposit { client: 1, id: 1, amount: Money(10_000) }).unwrap();
    assert_eq!(bank.process(Tx::Dispute { client: 1, id: 9 }), Err(TxError::NoSuchTransaction));
    assert_eq!(bank.process(Tx::Resolve { client: 2, id: 9 }), Err(TxError::NoSuchTransaction));
    assert_eq!(bank.process(Tx::Chargeback { client: 3, id: 9 }), Err(TxError::NoSuchTransaction));
    assert_eq!(bank.accounts().len(), 1);
    assert_eq!(find(&bank, 1).available, Money(10_000));
    assert_eq!(bank.amount(9), Err(TxError::NoSuchTransaction));
    assert_eq!(bank.amount(1), Ok(Money(10_000)));
}

#[test]
fn withdrawal_is_not_disputable() {
    let mut bank = Bank::new();
    bank.process(Tx::Deposit { client: 1, id: 1, amount: Money(10_000) }).unwrap();
    bank.process(Tx::Withdrawal { client: 1, id: 2, amount: Money(4_000) }).unwrap();
    assert_eq!(bank.process(Tx::Dispute { client: 1, id: 2 }), Err(TxError::NoSuchTransaction));
    assert_eq!(find(&bank, 1).available, Money(6_000));
}

#[test]
fn resolve_restores_balances() {
    let mut bank = Bank::new();
    bank.process(Tx::Deposit { client: 5, id: 1, amount: Money(20_000) }).unwrap();
    let before = find(&bank, 5);
    bank.process(Tx::Dispute { client: 5, id: 1 }).unwrap();
    let disputed = find(&bank, 5);
    assert_eq!(disputed.available, Money(0));
    assert_eq!(disputed.held, Money(20_000));
    bank.process(Tx::Resolve { client: 5, id: 1 }).unwrap();
    assert_eq!(find(&bank, 5), before);
}

#[test]
fn chargeback_then_locked() {
    let mut bank = Bank::new();
    bank.process(Tx::Deposit { client: 5, id: 1, amount: Money(20_000) }).unwrap();
    bank.process(Tx::Dispute { client: 5, id: 1 }).unwrap();
    assert_eq!(bank.process(Tx::Chargeback { client: 5, id: 1 }), Ok(()));
    let a = find(&bank, 5);
    assert_eq!(a.held, Money(0));
    assert_eq!(a.available, Money(0));
    assert!(a.locked);
    assert_eq!(
        bank.process(Tx::Deposit { client: 5, id: 2, amount: Money(1) }),
        Err(TxError::LockedAccount)
    );
    assert_eq!(
        bank.process(Tx::Withdrawal { client: 5, id: 3, amount: Money(0) }),
        Err(TxError::LockedAccount)
    );
    assert_eq!(bank.amount(2), Err(TxError::NoSuchTransaction));
}

#[test]
fn failed_withdrawal_opens_account() {
    let mut bank = Bank::new();
    assert_eq!(
        bank.process(Tx::Withdrawal { client: 8, id: 1, amount: Money(1) }),
        Err(TxError::InsufficientFunds)
    );
    assert_eq!(find(&bank, 8), Account::new(8));
}

#[test]
fn account_opens_fresh() {
    let mut bank = Bank::new();
    assert_eq!(bank.account(3), Account::new(3));
    assert_eq!(bank.accounts().len(), 1);
}

#[test]
fn deposit_id_overwrites_amount() {
    let mut bank = Bank::new();
    bank.process(Tx::Deposit { client: 1, id: 1, amount: Money(10) }).unwrap();
    bank.process(Tx::Deposit { client: 2, id: 1, amount: Money(20) }).unwrap();
    assert_eq!(bank.amount(1), Ok(Money(20)));
}

fn record(kind: &str, amount: Option<Money>) -> TxRecord {
    TxRecord { kind: kind.to_string(), client: 4, tx: 9, amount }
}

#[test]
fn records_become_transactions() {
    assert_eq!(
        Tx::try_from_record(record("deposit", Some(Money(7)))),
        Ok(Tx::Deposit { client: 4, id: 9, amount: Money(7) })
    );
    assert_eq!(
        Tx::try_from_record(record("withdrawal", Some(Money(7)))),
        Ok(Tx::Withdrawal { client: 4, id: 9, amount: Money(7) })
    );
    assert_eq!(Tx::try_from_record(record("dispute", Some(Money(7)))), Ok(Tx::Dispute { client: 4, id: 9 }));
    assert_eq!(Tx::try_from_record(record("resolve", None)), Ok(Tx::Resolve { client: 4, id: 9 }));
    assert_eq!(Tx::try_from_record(record("chargeback", None)), Ok(Tx::Chargeback { client: 4, id: 9 }));
}

#[test]
fn missing_amount() {
    assert_eq!(Tx::try_from_record(record("deposit", None)), Err(BankError::MissingAmount));
    assert_eq!(Tx::try_from_record(record("withdrawal", None)), Err(BankError::MissingAmount));
}

#[test]
fn known_kinds() {
    for k in ["deposit", "withdrawal", "dispute", "resolve", "chargeback"] {
        assert!(is_known_kind(&k.to_string()));
    }
    assert!(!is_known_kind(&"refund".to_string()));
    assert!(!is_known_kind(&"Deposit".to_string()));
}

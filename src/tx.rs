use vstd::prelude::*;
use vstd::string::StringExecFns;

use crate::account::ClientId;
use crate::error::BankError;
use crate::money::Money;

verus! {

/// Identifies a deposit or a withdrawal.
pub type TxId = u32;

/// One typed transaction.
#[derive(Clone, Copy, Debug, PartialEq, Eq, Structural)]
pub enum Tx {
    Deposit { client: ClientId, id: TxId, amount: Money },
    Withdrawal { client: ClientId, id: TxId, amount: Money },
    Dispute { client: ClientId, id: TxId },
    Resolve { client: ClientId, id: TxId },
    Chargeback { client: ClientId, id: TxId },
}

/// One decoded input record, before it is typed: its kind as text and an
/// amount that only deposits and withdrawals need.
#[derive(Debug)]
pub struct TxRecord {
    pub kind: String,
    pub client: ClientId,
    pub tx: TxId,
    pub amount: Option<Money>,
}

/// True for the five kinds of record that the ledger knows.
pub open spec fn known_kind(kind: Seq<char>) -> bool {
    kind == "deposit"@ || kind == "withdrawal"@ || kind == "dispute"@ || kind == "resolve"@
        || kind == "chargeback"@
}

/// The transaction a record of a known kind stands for, or `MissingAmount`
/// for a deposit or withdrawal without an amount.
pub open spec fn record_tx(kind: Seq<char>, client: ClientId, id: TxId, amount: Option<Money>) -> Result<
    Tx,
    BankError,
> {
    if kind == "deposit"@ || kind == "withdrawal"@ {
        match amount {
            None => Err(BankError::MissingAmount),
            Some(amount) => if kind == "deposit"@ {
                Ok(Tx::Deposit { client, id, amount })
            } else {
                Ok(Tx::Withdrawal { client, id, amount })
            },
        }
    } else if kind == "dispute"@ {
        Ok(Tx::Dispute { client, id })
    } else if kind == "resolve"@ {
        Ok(Tx::Resolve { client, id })
    } else {
        Ok(Tx::Chargeback { client, id })
    }
}

/// Whether `kind` names one of the five kinds of record.
pub fn is_known_kind(kind: &String) -> (r: bool)
    ensures
        r == known_kind(kind@),
{
    proof {
        reveal_strlit("deposit");
        reveal_strlit("withdrawal");
        reveal_strlit("dispute");
        reveal_strlit("resolve");
        reveal_strlit("chargeback");
    }
    *kind == String::from_str("deposit") || *kind == String::from_str("withdrawal") || *kind
        == String::from_str("dispute") || *kind == String::from_str("resolve") || *kind
        == String::from_str("chargeback")
}

impl Tx {
    /// Types a record whose kind is known.
    pub fn try_from_record(record: TxRecord) -> (r: Result<Tx, BankError>)
        requires
            known_kind(record.kind@),
        ensures
            r == record_tx(record.kind@, record.client, record.tx, record.amount),
    {
        proof {
            reveal_strlit("deposit");
            reveal_strlit("withdrawal");
            reveal_strlit("dispute");
            reveal_strlit("resolve");
        }
        let client = record.client;
        let id = record.tx;
        if record.kind == String::from_str("deposit") {
            match record.amount {
                Some(amount) => Ok(Tx::Deposit { client, id, amount }),
                None => Err(BankError::MissingAmount),
            }
        } else if record.kind == String::from_str("withdrawal") {
            match record.amount {
                Some(amount) => Ok(Tx::Withdrawal { client, id, amount }),
                None => Err(BankError::MissingAmount),
            }
        } else if record.kind == String::from_str("dispute") {
            Ok(Tx::Dispute { client, id })
        } else if record.kind == String::from_str("resolve") {
            Ok(Tx::Resolve { client, id })
        } else {
            Ok(Tx::Chargeback { client, id })
        }
    }
}

} // verus!

use vstd::prelude::*;

verus! {

/// Failures of a record before it reaches the ledger, or of the whole run.
#[derive(Clone, Copy, Debug, PartialEq, Eq, Structural)]
pub enum BankError {
    MissingAmount,
    Usage,
}

/// Failures of a single transaction.
#[derive(Clone, Copy, Debug, PartialEq, Eq, Structural)]
pub enum TxError {
    InsufficientFunds,
    LockedAccount,
    NoSuchTransaction,
    Overflow,
}

impl BankError {
    /// Human-readable description of the error.
    pub fn message(&self) -> (r: &'static str)
        ensures
            *self == BankError::MissingAmount ==> r@ == "Amount missing in transaction CSV"@,
            *self == BankError::Usage ==> r@ == "Command line usage error"@,
    {
        match self {
            BankError::MissingAmount => "Amount missing in transaction CSV",
            BankError::Usage => "Command line usage error",
        }
    }
}

impl TxError {
    /// Human-readable description of the error.
    pub fn message(&self) -> (r: &'static str)
        ensures
            *self == TxError::InsufficientFunds ==> r@ == "Insufficient funds"@,
            *self == TxError::LockedAccount ==> r@ == "Locked account"@,
            *self == TxError::NoSuchTransaction ==> r@ == "Referenced transaction not found"@,
            *self == TxError::Overflow ==> r@ == "Numerical overflow"@,
    {
        match self {
            TxError::InsufficientFunds => "Insufficient funds",
            TxError::LockedAccount => "Locked account",
            TxError::NoSuchTransaction => "Referenced transaction not found",
            TxError::Overflow => "Numerical overflow",
        }
    }
}

} // verus!

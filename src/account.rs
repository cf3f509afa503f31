use vstd::prelude::*;

use crate::error::TxError;
use crate::money::{fits, Money};

verus! {

/// Identifies an account holder.
pub type ClientId = u16;

/// Balance state of one client.
#[derive(Clone, Copy, Debug, PartialEq, Eq, Structural)]
pub struct Account {
    pub client_id: ClientId,
    /// Funds the client may withdraw.
    pub available: Money,
    /// Funds frozen by disputes.
    pub held: Money,
    /// Set for good by a chargeback.
    pub locked: bool,
}

/// How an operation that returns `r` and leaves the account `after` relates
/// to the outcome `s` of its specification on the account `before`: on
/// success the account becomes the new state; on failure the error is the
/// same and the account is untouched.
pub open spec fn applied(
    before: Account,
    after: Account,
    r: Result<(), TxError>,
    s: Result<Account, TxError>,
) -> bool {
    match s {
        Ok(a) => r == Ok::<(), TxError>(()) && after == a,
        Err(e) => r == Err::<(), TxError>(e) && after == before,
    }
}

impl Account {
    /// A fresh account: nothing available or held, not locked.
    pub open spec fn fresh(client_id: ClientId) -> Account {
        Account { client_id, available: Money(0), held: Money(0), locked: false }
    }

    /// The account with new balances and lock flag.
    pub open spec fn with(self, available: int, held: int, locked: bool) -> Account {
        Account {
            client_id: self.client_id,
            available: Money(available as i64),
            held: Money(held as i64),
            locked,
        }
    }

    /// Outcome of a deposit: refused on a locked account or on overflow.
    pub open spec fn deposit_spec(self, amount: Money) -> Result<Account, TxError> {
        if self.locked {
            Err(TxError::LockedAccount)
        } else if !fits(self.available.0 + amount.0) {
            Err(TxError::Overflow)
        } else {
            Ok(self.with(self.available.0 + amount.0, self.held.0 as int, false))
        }
    }

    /// Outcome of a withdrawal: refused on a locked account, on overflow, or
    /// when it would leave less than nothing available.
    pub open spec fn withdraw_spec(self, amount: Money) -> Result<Account, TxError> {
        if self.locked {
            Err(TxError::LockedAccount)
        } else if !fits(self.available.0 - amount.0) {
            Err(TxError::Overflow)
        } else if self.available.0 - amount.0 < 0 {
            Err(TxError::InsufficientFunds)
        } else {
            Ok(self.with(self.available.0 - amount.0, self.held.0 as int, false))
        }
    }

    /// Outcome of a dispute: the amount moves from available to held.
    pub open spec fn dispute_spec(self, amount: Money) -> Result<Account, TxError> {
        if !fits(self.available.0 - amount.0) || !fits(self.held.0 + amount.0) {
            Err(TxError::Overflow)
        } else {
            Ok(self.with(self.available.0 - amount.0, self.held.0 + amount.0, self.locked))
        }
    }

    /// Outcome of a resolution: the amount moves from held back to available.
    pub open spec fn resolve_spec(self, amount: Money) -> Result<Account, TxError> {
        if !fits(self.available.0 + amount.0) || !fits(self.held.0 - amount.0) {
            Err(TxError::Overflow)
        } else {
            Ok(self.with(self.available.0 + amount.0, self.held.0 - amount.0, self.locked))
        }
    }

    /// Outcome of a chargeback: the amount leaves held and the account locks.
    pub open spec fn chargeback_spec(self, amount: Money) -> Result<Account, TxError> {
        if !fits(self.held.0 - amount.0) {
            Err(TxError::Overflow)
        } else {
            Ok(self.with(self.available.0 as int, self.held.0 - amount.0, true))
        }
    }

    /// Opens an empty, unlocked account for `client_id`.
    pub fn new(client_id: ClientId) -> (r: Account)
        ensures
            r == Account::fresh(client_id),
    {
        Account { client_id, available: Money(0), held: Money(0), locked: false }
    }

    /// Available plus held, or `Overflow` when the sum does not fit.
    pub fn total_balance(&self) -> (r: Result<Money, TxError>)
        ensures
            r == self.available.add_spec(self.held),
    {
        self.available.add(self.held)
    }

    /// Fails with `LockedAccount` exactly when the account is locked.
    pub fn check_unlocked(&self) -> (r: Result<(), TxError>)
        ensures
            self.locked ==> r == Err::<(), TxError>(TxError::LockedAccount),
            !self.locked ==> r is Ok,
    {
        if self.locked {
            Err(TxError::LockedAccount)
        } else {
            Ok(())
        }
    }

    /// Adds `amount` to the available funds.
    pub fn deposit(&mut self, amount: Money) -> (r: Result<(), TxError>)
        ensures
            applied(*old(self), *final(self), r, old(self).deposit_spec(amount)),
    {
        match self.check_unlocked() {
            Ok(()) => {},
            Err(e) => return Err(e),
        }
        match self.available.add(amount) {
            Ok(available) => {
                self.available = available;
                Ok(())
            },
            Err(e) => Err(e),
        }
    }

    /// Takes `amount` from the available funds, if they suffice.
    pub fn withdraw(&mut self, amount: Money) -> (r: Result<(), TxError>)
        ensures
            applied(*old(self), *final(self), r, old(self).withdraw_spec(amount)),
    {
        match self.check_unlocked() {
            Ok(()) => {},
            Err(e) => return Err(e),
        }
        let available = match self.available.sub(amount) {
            Ok(a) => a,
            Err(e) => return Err(e),
        };
        if available.0 >= 0 {
            self.available = available;
            Ok(())
        } else {
            Err(TxError::InsufficientFunds)
        }
    }

    /// Moves `amount` from available to held.
    pub fn dispute(&mut self, amount: Money) -> (r: Result<(), TxError>)
        ensures
            applied(*old(self), *final(self), r, old(self).dispute_spec(amount)),
    {
        let available = match self.available.sub(amount) {
            Ok(a) => a,
            Err(e) => return Err(e),
        };
        let held = match self.held.add(amount) {
            Ok(h) => h,
            Err(e) => return Err(e),
        };
        self.available = available;
        self.held = held;
        Ok(())
    }

    /// Moves `amount` from held back to available.
    pub fn resolve(&mut self, amount: Money) -> (r: Result<(), TxError>)
        ensures
            applied(*old(self), *final(self), r, old(self).resolve_spec(amount)),
    {
        let available = match self.available.add(amount) {
            Ok(a) => a,
            Err(e) => return Err(e),
        };
        let held = match self.held.sub(amount) {
            Ok(h) => h,
            Err(e) => return Err(e),
        };
        self.available = available;
        self.held = held;
        Ok(())
    }

    /// Removes `amount` from held and locks the account.
    pub fn chargeback(&mut self, amount: Money) -> (r: Result<(), TxError>)
        ensures
            applied(*old(self), *final(self), r, old(self).chargeback_spec(amount)),
    {
        match self.held.sub(amount) {
            Ok(held) => {
                self.held = held;
                self.locked = true;
                Ok(())
            },
            Err(e) => Err(e),
        }
    }
}

/// One output row: an account's balances and its total.
#[derive(Clone, Copy, Debug, PartialEq, Eq, Structural)]
pub struct AccountRecord {
    pub client: ClientId,
    pub available: Money,
    pub held: Money,
    pub total: Money,
    pub locked: bool,
}

impl AccountRecord {
    /// The row of `account`, or `Overflow` when its total does not fit.
    pub fn from_account(account: &Account) -> (r: Result<AccountRecord, TxError>)
        ensures
            match account.available.add_spec(account.held) {
                Ok(total) => r == Ok::<AccountRecord, TxError>(
                    AccountRecord {
                        client: account.client_id,
                        available: account.available,
                        held: account.held,
                        total,
                        locked: account.locked,
                    },
                ),
                Err(e) => r == Err::<AccountRecord, TxError>(e),
            },
    {
        match account.total_balance() {
            Ok(total) => Ok(
                AccountRecord {
                    client: account.client_id,
                    available: account.available,
                    held: account.held,
                    total,
                    locked: account.locked,
                },
            ),
            Err(e) => Err(e),
        }
    }
}

} // verus!

use vstd::prelude::*;
use vstd::std_specs::hash::spec_values_iter;
use vstd::std_specs::iter::IteratorSpec;

use std::collections::HashMap;

use crate::account::{applied, Account, ClientId};
use crate::error::TxError;
use crate::money::Money;
use crate::tx::{Tx, TxId};

verus! {

broadcast use vstd::std_specs::hash::group_hash_axioms;

/// The account of `client`, or a fresh one if it has none yet.
pub open spec fn account_or_fresh(accounts: Map<ClientId, Account>, client: ClientId) -> Account {
    if accounts.contains_key(client) {
        accounts[client]
    } else {
        Account::fresh(client)
    }
}

/// The accounts once `client` has one, opened fresh if it was missing.
pub open spec fn touched(accounts: Map<ClientId, Account>, client: ClientId) -> Map<
    ClientId,
    Account,
> {
    accounts.insert(client, account_or_fresh(accounts, client))
}

/// The accounts after an operation on `client` whose outcome is `s`: the new
/// state on success; on failure the account stays as it was, though it has
/// been opened if it was missing.
pub open spec fn after_op(
    accounts: Map<ClientId, Account>,
    client: ClientId,
    s: Result<Account, TxError>,
) -> Map<ClientId, Account> {
    match s {
        Ok(a) => accounts.insert(client, a),
        Err(_) => touched(accounts, client),
    }
}

/// The result that an operation with outcome `s` reports.
pub open spec fn outcome(s: Result<Account, TxError>) -> Result<(), TxError> {
    match s {
        Ok(_) => Ok(()),
        Err(e) => Err(e),
    }
}

/// What processing `tx` reports, and the accounts and recorded deposit
/// amounts afterwards. Only a successful deposit records its amount;
/// disputes, resolutions and chargebacks act on a recorded amount and fail
/// with `NoSuchTransaction`, changing nothing, when there is none.
pub open spec fn process_spec(
    accounts: Map<ClientId, Account>,
    amounts: Map<TxId, Money>,
    tx: Tx,
) -> (Result<(), TxError>, Map<ClientId, Account>, Map<TxId, Money>) {
    match tx {
        Tx::Deposit { client, id, amount } => {
            let s = account_or_fresh(accounts, client).deposit_spec(amount);
            (
                outcome(s),
                after_op(accounts, client, s),
                if s is Ok {
                    amounts.insert(id, amount)
                } else {
                    amounts
                },
            )
        },
        Tx::Withdrawal { client, id, amount } => {
            let s = account_or_fresh(accounts, client).withdraw_spec(amount);
            (outcome(s), after_op(accounts, client, s), amounts)
        },
        Tx::Dispute { client, id } => if amounts.contains_key(id) {
            let s = account_or_fresh(accounts, client).dispute_spec(amounts[id]);
            (outcome(s), after_op(accounts, client, s), amounts)
        } else {
            (Err(TxError::NoSuchTransaction), accounts, amounts)
        },
        Tx::Resolve { client, id } => if amounts.contains_key(id) {
            let s = account_or_fresh(accounts, client).resolve_spec(amounts[id]);
            (outcome(s), after_op(accounts, client, s), amounts)
        } else {
            (Err(TxError::NoSuchTransaction), accounts, amounts)
        },
        Tx::Chargeback { client, id } => if amounts.contains_key(id) {
            let s = account_or_fresh(accounts, client).chargeback_spec(amounts[id]);
            (outcome(s), after_op(accounts, client, s), amounts)
        } else {
            (Err(TxError::NoSuchTransaction), accounts, amounts)
        },
    }
}

/// Every account is filed under its own client.
pub open spec fn accounts_wf(accounts: Map<ClientId, Account>) -> bool {
    forall|c: ClientId| #[trigger] accounts.contains_key(c) ==> accounts[c].client_id == c
}

/// Storing the account that an operation left behind gives the accounts that
/// `after_op` describes.
proof fn lemma_store(
    accounts: Map<ClientId, Account>,
    client: ClientId,
    before: Account,
    after: Account,
    r: Result<(), TxError>,
    s: Result<Account, TxError>,
)
    requires
        before == account_or_fresh(accounts, client),
        applied(before, after, r, s),
    ensures
        touched(accounts, client).insert(client, after) == after_op(accounts, client, s),
        r == outcome(s),
{
    assert(touched(accounts, client).insert(client, after) =~= after_op(accounts, client, s));
}

/// All accounts, and the amounts of past deposits that may be disputed.
#[derive(Debug)]
pub struct Bank {
    accounts: HashMap<ClientId, Account>,
    amounts: HashMap<TxId, Money>,
}

impl Bank {
    /// The accounts, by client.
    pub closed spec fn accounts_map(&self) -> Map<ClientId, Account> {
        self.accounts@
    }

    /// The recorded deposit amounts, by transaction.
    pub closed spec fn amounts_map(&self) -> Map<TxId, Money> {
        self.amounts@
    }

    /// The ledger's invariant: each account is filed under its own client.
    pub open spec fn wf(&self) -> bool {
        accounts_wf(self.accounts_map())
    }

    /// A ledger with no accounts and no recorded deposits.
    pub fn new() -> (r: Bank)
        ensures
            r.wf(),
            r.accounts_map() == Map::<ClientId, Account>::empty(),
            r.amounts_map() == Map::<TxId, Money>::empty(),
    {
        Bank { accounts: HashMap::new(), amounts: HashMap::new() }
    }

    /// The account of `client`, opened fresh if it has none yet.
    pub fn account(&mut self, client: ClientId) -> (r: Account)
        requires
            old(self).wf(),
        ensures
            final(self).wf(),
            r == account_or_fresh(old(self).accounts_map(), client),
            final(self).accounts_map() == touched(old(self).accounts_map(), client),
            final(self).amounts_map() == old(self).amounts_map(),
    {
        let a = match self.accounts.get(&client) {
            Some(a) => *a,
            None => Account::new(client),
        };
        self.accounts.insert(client, a);
        a
    }

    /// The amount recorded for deposit `id`.
    pub fn amount(&self, id: TxId) -> (r: Result<Money, TxError>)
        ensures
            self.amounts_map().contains_key(id) ==> r == Ok::<Money, TxError>(
                self.amounts_map()[id],
            ),
            !self.amounts_map().contains_key(id) ==> r == Err::<Money, TxError>(
                TxError::NoSuchTransaction,
            ),
    {
        match self.amounts.get(&id) {
            Some(m) => Ok(*m),
            None => Err(TxError::NoSuchTransaction),
        }
    }

    /// Applies one transaction.
    pub fn process(&mut self, tx: Tx) -> (r: Result<(), TxError>)
        requires
            old(self).wf(),
        ensures
            final(self).wf(),
            (r, final(self).accounts_map(), final(self).amounts_map()) == process_spec(
                old(self).accounts_map(),
                old(self).amounts_map(),
                tx,
            ),
    {
        match tx {
            Tx::Deposit { client, id, amount } => {
                let mut a = self.account(client);
                let ghost before = a;
                let r = a.deposit(amount);
                proof {
                    lemma_store(old(self).accounts@, client, before, a, r, before.deposit_spec(amount));
                }
                self.accounts.insert(client, a);
                if r.is_ok() {
                    self.amounts.insert(id, amount);
                }
                r
            },
            Tx::Withdrawal { client, id: _, amount } => {
                let mut a = self.account(client);
                let ghost before = a;
                let r = a.withdraw(amount);
                proof {
                    lemma_store(old(self).accounts@, client, before, a, r, before.withdraw_spec(amount));
                }
                self.accounts.insert(client, a);
                r
            },
            Tx::Dispute { client, id } => {
                let amount = match self.amount(id) {
                    Ok(m) => m,
                    Err(e) => return Err(e),
                };
                let mut a = self.account(client);
                let ghost before = a;
                let r = a.dispute(amount);
                proof {
                    lemma_store(old(self).accounts@, client, before, a, r, before.dispute_spec(amount));
                }
                self.accounts.insert(client, a);
                r
            },
            Tx::Resolve { client, id } => {
                let amount = match self.amount(id) {
                    Ok(m) => m,
                    Err(e) => return Err(e),
                };
                let mut a = self.account(client);
                let ghost before = a;
                let r = a.resolve(amount);
                proof {
                    lemma_store(old(self).accounts@, client, before, a, r, before.resolve_spec(amount));
                }
                self.accounts.insert(client, a);
                r
            },
            Tx::Chargeback { client, id } => {
                let amount = match self.amount(id) {
                    Ok(m) => m,
                    Err(e) => return Err(e),
                };
                let mut a = self.account(client);
                let ghost before = a;
                let r = a.chargeback(amount);
                proof {
                    lemma_store(old(self).accounts@, client, before, a, r, before.chargeback_spec(amount));
                }
                self.accounts.insert(client, a);
                r
            },
        }
    }
    /// Every account, each once, in no particular order.
    pub fn accounts(&self) -> (r: Vec<Account>)
        ensures
            r@.len() == self.accounts_map().dom().len(),
            r@.to_set() == self.accounts_map().values(),
    {
        let ghost vals = spec_values_iter(&self.accounts).remaining();
        let mut v: Vec<Account> = Vec::new();
        for a in it: self.accounts.values()
            invariant
                it.seq() == vals,
                v@ == vals.unref().take(it.index()),
            ensures
                v@ == vals.unref(),
        {
            v.push(*a);
            assert(v@ =~= vals.unref().take(it.index() + 1));
        }
        v
    }
}

impl Default for Bank {
    fn default() -> (r: Bank)
        ensures
            r.wf(),
            r.accounts_map() == Map::<ClientId, Account>::empty(),
            r.amounts_map() == Map::<TxId, Money>::empty(),
    {
        Bank::new()
    }
}

} // verus!

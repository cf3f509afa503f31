use vstd::prelude::*;

use crate::account::{Account, ClientId};
use crate::bank::{account_or_fresh, process_spec, touched};
use crate::error::TxError;
use crate::money::{fits, Money};
use crate::tx::{Tx, TxId};

verus! {

/// Adding `b` to `a` and then subtracting `b` gives back `a`, whenever the
/// addition does not overflow.
pub proof fn add_then_sub(a: Money, b: Money)
    requires
        a.0 >= 0,
        b.0 >= 0,
        a.add_spec(b) is Ok,
    ensures
        a.add_spec(b)->Ok_0.sub_spec(b) == Ok::<Money, TxError>(a),
{
}

/// A deposit of `amount` for a client without an account opens one holding
/// exactly `amount` available, nothing held, unlocked, and records the amount.
pub proof fn deposit_into_fresh(
    accounts: Map<ClientId, Account>,
    amounts: Map<TxId, Money>,
    client: ClientId,
    id: TxId,
    amount: Money,
)
    requires
        !accounts.contains_key(client),
    ensures
        ({
            let (r, accounts2, amounts2) = process_spec(
                accounts,
                amounts,
                Tx::Deposit { client, id, amount },
            );
            &&& r == Ok::<(), TxError>(())
            &&& accounts2 == accounts.insert(
                client,
                Account { client_id: client, available: amount, held: Money(0), locked: false },
            )
            &&& amounts2 == amounts.insert(id, amount)
        }),
{
}

/// Withdrawing more than is available from an unlocked account fails with
/// `InsufficientFunds` and changes nothing, where the difference fits.
pub proof fn withdraw_beyond_available(
    accounts: Map<ClientId, Account>,
    amounts: Map<TxId, Money>,
    client: ClientId,
    id: TxId,
    amount: Money,
)
    requires
        accounts.contains_key(client),
        !accounts[client].locked,
        amount.0 > accounts[client].available.0,
        fits(accounts[client].available.0 - amount.0),
    ensures
        process_spec(accounts, amounts, Tx::Withdrawal { client, id, amount }) == (
        Err::<(), TxError>(TxError::InsufficientFunds),
        accounts,
        amounts,
        ),
{
    assert(touched(accounts, client) =~= accounts);
}

/// Disputing a recorded deposit of amount X moves exactly X from available
/// to held and leaves the total as it was, where the new balances fit.
pub proof fn dispute_moves_to_held(
    accounts: Map<ClientId, Account>,
    amounts: Map<TxId, Money>,
    client: ClientId,
    id: TxId,
)
    requires
        amounts.contains_key(id),
        fits(account_or_fresh(accounts, client).available.0 - amounts[id].0),
        fits(account_or_fresh(accounts, client).held.0 + amounts[id].0),
    ensures
        ({
            let before = account_or_fresh(accounts, client);
            let x = amounts[id].0;
            let (r, accounts2, amounts2) = process_spec(
                accounts,
                amounts,
                Tx::Dispute { client, id },
            );
            &&& r == Ok::<(), TxError>(())
            &&& accounts2.contains_key(client)
            &&& accounts2[client].available.0 == before.available.0 - x
            &&& accounts2[client].held.0 == before.held.0 + x
            &&& accounts2[client].available.0 + accounts2[client].held.0 == before.available.0
                + before.held.0
            &&& accounts2[client].locked == before.locked
            &&& accounts2.remove(client) == accounts.remove(client)
            &&& amounts2 == amounts
        }),
{
    assert(process_spec(accounts, amounts, Tx::Dispute { client, id }).1.remove(client)
        =~= accounts.remove(client));
}

/// Resolving right after a successful dispute of the same transaction puts
/// the account back exactly as it was before the dispute.
pub proof fn resolve_undoes_dispute(
    accounts: Map<ClientId, Account>,
    amounts: Map<TxId, Money>,
    client: ClientId,
    id: TxId,
)
    requires
        process_spec(accounts, amounts, Tx::Dispute { client, id }).0 is Ok,
    ensures
        ({
            let (_, accounts1, amounts1) = process_spec(
                accounts,
                amounts,
                Tx::Dispute { client, id },
            );
            process_spec(accounts1, amounts1, Tx::Resolve { client, id }) == (
            Ok::<(), TxError>(()),
            touched(accounts, client),
            amounts,
            )
        }),
{
    let (_, accounts1, amounts1) = process_spec(accounts, amounts, Tx::Dispute { client, id });
    assert(process_spec(accounts1, amounts1, Tx::Resolve { client, id }).1 =~= touched(
        accounts,
        client,
    ));
}

/// A chargeback of a recorded deposit of amount X takes X out of held and
/// locks the account, where the new held balance fits; afterwards every
/// deposit and withdrawal on that account fails with `LockedAccount` and
/// changes nothing.
pub proof fn chargeback_locks(
    accounts: Map<ClientId, Account>,
    amounts: Map<TxId, Money>,
    client: ClientId,
    id: TxId,
    later_id: TxId,
    later_amount: Money,
)
    requires
        amounts.contains_key(id),
        fits(account_or_fresh(accounts, client).held.0 - amounts[id].0),
    ensures
        ({
            let before = account_or_fresh(accounts, client);
            let (r, accounts1, amounts1) = process_spec(
                accounts,
                amounts,
                Tx::Chargeback { client, id },
            );
            &&& r == Ok::<(), TxError>(())
            &&& accounts1.contains_key(client)
            &&& accounts1[client].held.0 == before.held.0 - amounts[id].0
            &&& accounts1[client].available == before.available
            &&& accounts1[client].locked
            &&& process_spec(
                accounts1,
                amounts1,
                Tx::Deposit { client, id: later_id, amount: later_amount },
            ) == (Err::<(), TxError>(TxError::LockedAccount), accounts1, amounts1)
            &&& process_spec(
                accounts1,
                amounts1,
                Tx::Withdrawal { client, id: later_id, amount: later_amount },
            ) == (Err::<(), TxError>(TxError::LockedAccount), accounts1, amounts1)
        }),
{
    let (_, accounts1, _) = process_spec(accounts, amounts, Tx::Chargeback { client, id });
    assert(touched(accounts1, client) =~= accounts1);
}

/// A dispute, resolution or chargeback of a transaction with no recorded
/// amount fails with `NoSuchTransaction` and changes nothing.
pub proof fn unknown_transaction(
    accounts: Map<ClientId, Account>,
    amounts: Map<TxId, Money>,
    client: ClientId,
    id: TxId,
)
    requires
        !amounts.contains_key(id),
    ensures
        process_spec(accounts, amounts, Tx::Dispute { client, id }) == (
        Err::<(), TxError>(TxError::NoSuchTransaction),
        accounts,
        amounts,
        ),
        process_spec(accounts, amounts, Tx::Resolve { client, id }) == (
        Err::<(), TxError>(TxError::NoSuchTransaction),
        accounts,
        amounts,
        ),
        process_spec(accounts, amounts, Tx::Chargeback { client, id }) == (
        Err::<(), TxError>(TxError::NoSuchTransaction),
        accounts,
        amounts,
        ),
{
}

/// A withdrawal never becomes disputable: it records no amount, so a later
/// dispute of its id, by any client, fails with `NoSuchTransaction`.
pub proof fn withdrawal_not_disputable(
    accounts: Map<ClientId, Account>,
    amounts: Map<TxId, Money>,
    client: ClientId,
    id: TxId,
    amount: Money,
    disputer: ClientId,
)
    requires
        !amounts.contains_key(id),
    ensures
        ({
            let (_, accounts1, amounts1) = process_spec(
                accounts,
                amounts,
                Tx::Withdrawal { client, id, amount },
            );
            &&& amounts1 == amounts
            &&& process_spec(accounts1, amounts1, Tx::Dispute { client: disputer, id }).0
                == Err::<(), TxError>(TxError::NoSuchTransaction)
        }),
{
}

} // verus!

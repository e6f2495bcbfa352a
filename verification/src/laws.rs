//! What holds of the ledger whatever the records are.
//!
//! Each function here is a theorem about the model of [`crate::model`],
//! which is the model that the contracts of [`crate::Account`] and
//! [`crate::Bank`] are stated in.

use vstd::prelude::*;
use crate::model::{AccountState, BankState};
use crate::transaction::Transaction;

verus! {

/// Whether every record of `txns` is a deposit.
pub open spec fn deposits_only(txns: Seq<Transaction>) -> bool {
    forall|i: int| 0 <= i < txns.len() ==> (#[trigger] txns[i]).kind is Deposit
}

/// A record that an account rejects leaves the account as it was.
pub proof fn lemma_rejected_has_no_effect(state: AccountState, txn: Transaction)
    requires
        state.rejects(txn),
    ensures
        state.apply(txn) == state,
{
}

/// A deposit adds its amount to the available and to the total balance of
/// an unlocked account, and is kept as the record of its number.
pub proof fn lemma_deposit_adds(state: AccountState, txn: Transaction)
    requires
        txn.kind is Deposit,
        !state.locked,
    ensures
        state.apply(txn).available == state.available + txn.magnitude(),
        state.apply(txn).total == state.total + txn.magnitude(),
        state.apply(txn).held == state.held,
        state.apply(txn).transactions == state.transactions.insert(txn.tx, txn),
{
}

/// After deposits only, whatever their number and amounts, the available
/// balance of an account equals its total balance, nothing is held and the
/// account is not locked.
pub proof fn lemma_deposits_only(client: u16, txns: Seq<Transaction>)
    requires
        deposits_only(txns),
    ensures
        AccountState::new(client).apply_all(txns).available == AccountState::new(client).apply_all(
            txns,
        ).total,
        AccountState::new(client).apply_all(txns).held == 0,
        !AccountState::new(client).apply_all(txns).locked,
    decreases txns.len(),
{
    if txns.len() > 0 {
        lemma_deposits_only(client, txns.drop_last());
    }
}

/// A dispute that an account does not reject moves the amount of the
/// record it names from the available to the held balance.
pub proof fn lemma_dispute_holds_amount(state: AccountState, txn: Transaction)
    requires
        txn.kind is Dispute,
        !state.rejects(txn),
    ensures
        state.apply(txn).held == state.held + state.transactions[txn.tx].magnitude(),
        state.apply(txn).available == state.available - state.transactions[txn.tx].magnitude(),
        state.apply(txn).total == state.total,
{
}

/// Neither a dispute nor a resolve changes the total balance, whether the
/// account rejects the record or not.
pub proof fn lemma_dispute_and_resolve_keep_total(state: AccountState, txn: Transaction)
    requires
        txn.kind is Dispute || txn.kind is Resolve,
    ensures
        state.apply(txn).total == state.total,
{
}

/// A withdrawal leaves the account as it was or leaves an available
/// balance that is not negative.
pub proof fn lemma_withdrawal_never_overdraws(state: AccountState, txn: Transaction)
    requires
        txn.kind is Withdrawal,
    ensures
        state.apply(txn) == state || state.apply(txn).available >= 0,
{
}

/// A chargeback that an account does not reject locks it.
pub proof fn lemma_chargeback_locks(state: AccountState, txn: Transaction)
    requires
        txn.kind is ChargeBack,
        !state.rejects(txn),
    ensures
        state.apply(txn).locked,
        state.apply(txn).held == state.held - state.transactions[txn.tx].magnitude(),
        state.apply(txn).available == state.available - state.transactions[txn.tx].magnitude(),
        state.apply(txn).total == state.total,
{
}

/// No sequence of records changes a locked account.
pub proof fn lemma_locked_is_final(state: AccountState, txns: Seq<Transaction>)
    requires
        state.locked,
    ensures
        state.apply_all(txns) == state,
    decreases txns.len(),
{
    if txns.len() > 0 {
        lemma_locked_is_final(state, txns.drop_last());
    }
}

/// A record that an account rejected is rejected again when it comes a
/// second time, and the account is as it was before the first.
pub proof fn lemma_rejected_again(state: AccountState, txn: Transaction)
    requires
        state.rejects(txn),
    ensures
        state.apply(txn).rejects(txn),
        state.apply(txn).apply(txn) == state,
{
}

/// A record takes a consistent account to a consistent account, and never
/// changes whose account it is.
pub proof fn lemma_apply_keeps_consistent(state: AccountState, txn: Transaction)
    requires
        state.consistent(),
    ensures
        state.apply(txn).consistent(),
        state.apply(txn).client == state.client,
{
}

/// Whatever records an account has seen since it was opened, it is
/// consistent and still the account of the same client.
pub proof fn lemma_history_is_consistent(client: u16, txns: Seq<Transaction>)
    ensures
        AccountState::new(client).apply_all(txns).consistent(),
        AccountState::new(client).apply_all(txns).client == client,
    decreases txns.len(),
{
    if txns.len() > 0 {
        lemma_history_is_consistent(client, txns.drop_last());
        lemma_apply_keeps_consistent(
            AccountState::new(client).apply_all(txns.drop_last()),
            txns.last(),
        );
    }
}

/// The records of `txns` that belong to `client`, in their order.
pub open spec fn records_of(txns: Seq<Transaction>, client: u16) -> Seq<Transaction> {
    txns.filter(|txn: Transaction| txn.client == client)
}

/// Routing a record does to the account of its client, fresh where the
/// bank held none, what the record does to an account.
pub proof fn lemma_route_applies_to_client(bank: BankState, txn: Transaction)
    ensures
        bank.route(txn).accounts.contains_key(txn.client),
        bank.route(txn).accounts[txn.client] == bank.ledger(txn.client).apply(txn),
        bank.route(txn).accounts.dom() == bank.accounts.dom().insert(txn.client),
{
}

/// Routing a record changes the account of its client and no other.
pub proof fn lemma_route_leaves_others(bank: BankState, txn: Transaction, client: u16)
    requires
        client != txn.client,
    ensures
        bank.route(txn).accounts.contains_key(client) == bank.accounts.contains_key(client),
        bank.route(txn).ledger(client) == bank.ledger(client),
{
}

/// Routing a record takes a consistent bank to a consistent bank.
pub proof fn lemma_route_keeps_consistent(bank: BankState, txn: Transaction)
    requires
        bank.consistent(),
    ensures
        bank.route(txn).consistent(),
{
    lemma_apply_keeps_consistent(bank.ledger(txn.client), txn);
}

/// Whatever records a bank has routed since it was empty, it is consistent.
pub proof fn lemma_bank_history_is_consistent(txns: Seq<Transaction>)
    ensures
        BankState::new().route_all(txns).consistent(),
    decreases txns.len(),
{
    if txns.len() > 0 {
        lemma_bank_history_is_consistent(txns.drop_last());
        lemma_route_keeps_consistent(BankState::new().route_all(txns.drop_last()), txns.last());
    }
}

/// The accounts are independent: what a sequence of records makes of the
/// account of a client is what the records of that client alone make of it,
/// and the bank holds an account for the client once one of them has come.
pub proof fn lemma_route_all_by_client(bank: BankState, txns: Seq<Transaction>, client: u16)
    ensures
        bank.route_all(txns).ledger(client) == bank.ledger(client).apply_all(
            records_of(txns, client),
        ),
        bank.route_all(txns).accounts.contains_key(client) <==> bank.accounts.contains_key(client)
            || records_of(txns, client).len() > 0,
    decreases txns.len(),
{
    reveal(Seq::filter);
    if txns.len() > 0 {
        let earlier = txns.drop_last();
        lemma_route_all_by_client(bank, earlier, client);
        if txns.last().client == client {
            let mine = records_of(earlier, client);
            assert(mine.push(txns.last()).drop_last() =~= mine);
        }
    }
}

/// For every client, a dispute that the account of the client does not
/// reject moves the amount of the record it names from the available to
/// the held balance of that account and leaves its total as it was.
pub proof fn lemma_bank_dispute_holds_amount(bank: BankState, txn: Transaction)
    requires
        txn.kind is Dispute,
        !bank.ledger(txn.client).rejects(txn),
    ensures
        bank.accounts.contains_key(txn.client),
        bank.route(txn).accounts[txn.client].held == bank.accounts[txn.client].held
            + bank.accounts[txn.client].transactions[txn.tx].magnitude(),
        bank.route(txn).accounts[txn.client].available == bank.accounts[txn.client].available
            - bank.accounts[txn.client].transactions[txn.tx].magnitude(),
        bank.route(txn).accounts[txn.client].total == bank.accounts[txn.client].total,
{
}

/// For every client, neither a dispute nor a resolve changes the total
/// balance of the account.
pub proof fn lemma_bank_dispute_and_resolve_keep_total(bank: BankState, txn: Transaction)
    requires
        txn.kind is Dispute || txn.kind is Resolve,
    ensures
        bank.route(txn).ledger(txn.client).total == bank.ledger(txn.client).total,
{
}

/// For every client, a withdrawal leaves the account as it was or leaves
/// an available balance that is not negative.
pub proof fn lemma_bank_withdrawal_never_overdraws(bank: BankState, txn: Transaction)
    requires
        txn.kind is Withdrawal,
    ensures
        bank.route(txn).ledger(txn.client) == bank.ledger(txn.client) || bank.route(txn).ledger(
            txn.client,
        ).available >= 0,
{
}

/// After deposits only, for whatever clients, the account of every client
/// in a bank that began empty has an available balance equal to its total
/// balance, holds nothing and is not locked.
pub proof fn lemma_bank_deposits_only(txns: Seq<Transaction>, client: u16)
    requires
        deposits_only(txns),
    ensures
        BankState::new().route_all(txns).ledger(client).available == BankState::new().route_all(
            txns,
        ).ledger(client).total,
        BankState::new().route_all(txns).ledger(client).held == 0,
        !BankState::new().route_all(txns).ledger(client).locked,
{
    lemma_route_all_by_client(BankState::new(), txns, client);
    let mine = records_of(txns, client);
    assert(deposits_only(mine)) by {
        assert forall|i: int| 0 <= i < mine.len() implies (#[trigger] mine[i]).kind is Deposit by {
            txns.lemma_filter_contains_rev(|txn: Transaction| txn.client == client, mine[i]);
        }
    }
    lemma_deposits_only(client, mine);
}

/// Once the account of a client is locked, no sequence of records, for
/// whatever clients, changes it.
pub proof fn lemma_bank_locked_is_final(bank: BankState, txns: Seq<Transaction>, client: u16)
    requires
        bank.accounts.contains_key(client),
        bank.accounts[client].locked,
    ensures
        bank.route_all(txns).accounts.contains_key(client),
        bank.route_all(txns).accounts[client] == bank.accounts[client],
{
    lemma_route_all_by_client(bank, txns, client);
    lemma_locked_is_final(bank.accounts[client], records_of(txns, client));
}

/// A record that the account of its client rejects is rejected again when
/// it is routed a second time, and the second routing changes nothing at
/// all. The first may have created the account.
pub proof fn lemma_bank_rejected_again(bank: BankState, txn: Transaction)
    requires
        bank.ledger(txn.client).rejects(txn),
    ensures
        bank.route(txn).ledger(txn.client) == bank.ledger(txn.client),
        bank.route(txn).ledger(txn.client).rejects(txn),
        bank.route(txn).route(txn) == bank.route(txn),
{
}

} // verus!

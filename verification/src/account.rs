//! The account of one client.

use std::collections::HashMap;
use vstd::prelude::*;
use crate::model::AccountState;
use crate::summary::AccountSummary;
use crate::transaction::{Transaction, TxType};

verus! {

broadcast use vstd::std_specs::hash::group_hash_axioms;

/// The balances of one client, with the history that disputes, resolves and
/// chargebacks are checked against.
///
/// The view of an account is its [`AccountState`]. Verified code reads an
/// account through its view and through `summary`.
#[derive(Debug)]
pub struct Account {
    pub client: u16,
    pub available: i64,
    pub held: i64,
    pub total: i64,
    pub locked: bool,
    transactions: HashMap<u32, Transaction>,
    disputes: HashMap<u32, Transaction>,
    resolves: HashMap<u32, Transaction>,
}

impl View for Account {
    type V = AccountState;

    closed spec fn view(&self) -> AccountState {
        AccountState {
            client: self.client,
            available: self.available as int,
            held: self.held as int,
            total: self.total as int,
            locked: self.locked,
            transactions: self.transactions@,
            disputes: self.disputes@,
            resolves: self.resolves@,
        }
    }
}

impl Account {
    /// An unlocked account with zero balances and no history.
    pub fn new(client_id: u16) -> (account: Account)
        ensures
            account@ == AccountState::new(client_id),
    {
        Self {
            client: client_id,
            available: 0,
            held: 0,
            total: 0,
            locked: false,
            transactions: HashMap::new(),
            disputes: HashMap::new(),
            resolves: HashMap::new(),
        }
    }

    /// The client, the balances and the lock flag of this account.
    pub fn summary(&self) -> (summary: AccountSummary)
        ensures
            summary.shows(self@),
    {
        AccountSummary {
            client: self.client,
            available: self.available,
            held: self.held,
            total: self.total,
            locked: self.locked,
        }
    }

    /// Applies one transaction, or drops it where the account rejects it.
    ///
    /// The balances that result must fit in 64 bits; `can_apply` tests that.
    pub fn apply_txn(&mut self, txn: Transaction)
        requires
            old(self)@.apply(txn).in_range(),
        ensures
            final(self)@ == old(self)@.apply(txn),
            old(self)@.locked ==> final(self)@ == old(self)@,
            txn.kind is Withdrawal && final(self)@.available < old(self)@.available
                ==> final(self)@.available >= 0,
            txn.kind is Dispute && !old(self)@.rejects(txn) ==> {
                &&& final(self)@.held == old(self)@.held + old(self)@.referenced_amount(txn)
                &&& final(self)@.available == old(self)@.available - old(
                    self,
                )@.referenced_amount(txn)
            },
            txn.kind is Dispute || txn.kind is Resolve ==> final(self)@.total == old(self)@.total,
    {
        if self.locked {
            return;
        }
        match txn.kind {
            TxType::ChargeBack => {
                // A dispute that was resolved can no longer be charged back.
                if self.disputes.contains_key(&txn.tx) && !self.resolves.contains_key(&txn.tx) {
                    if let Some(tx) = self.transactions.get(&txn.tx) {
                        self.locked = true;
                        let amt = tx.amount_or_default();
                        self.held -= amt;
                        self.available -= amt;
                    }
                }
            },
            TxType::Deposit => {
                let amt = txn.amount_or_default();
                self.available += amt;
                self.total += amt;

                self.transactions.insert(txn.tx, txn);
            },
            TxType::Dispute => {
                if let Some(tx) = self.transactions.get(&txn.tx) {
                    let amt = tx.amount_or_default();
                    self.held += amt;
                    self.available -= amt;

                    self.disputes.insert(txn.tx, *tx);
                }
            },
            TxType::Resolve => {
                if self.disputes.contains_key(&txn.tx) {
                    if let Some(tx) = self.transactions.get(&txn.tx) {
                        let amt = tx.amount_or_default();
                        self.held -= amt;
                        self.available += amt;

                        self.resolves.insert(txn.tx, *tx);
                    }
                }
            },
            TxType::Withdrawal => {
                let amt = txn.amount_or_default();
                if amt <= self.available {
                    self.available -= amt;
                    self.total -= amt;

                    self.transactions.insert(txn.tx, txn);
                }
            },
        }
    }

    /// Whether the balances that `txn` leads to fit in 64 bits, which is
    /// what `apply_txn` asks of its caller. A record that the account drops
    /// changes no balance, so it can always be applied.
    pub fn can_apply(&self, txn: &Transaction) -> (ok: bool)
        ensures
            ok == self@.apply(*txn).in_range(),
    {
        if self.locked {
            return true;
        }
        match txn.kind {
            TxType::ChargeBack => {
                if self.disputes.contains_key(&txn.tx) && !self.resolves.contains_key(&txn.tx) {
                    match self.transactions.get(&txn.tx) {
                        Some(tx) => {
                            let amt = tx.amount_or_default();
                            self.held.checked_sub(amt).is_some() && self.available.checked_sub(
                                amt,
                            ).is_some()
                        },
                        None => true,
                    }
                } else {
                    true
                }
            },
            TxType::Deposit => {
                let amt = txn.amount_or_default();
                self.available.checked_add(amt).is_some() && self.total.checked_add(amt).is_some()
            },
            TxType::Dispute => {
                match self.transactions.get(&txn.tx) {
                    Some(tx) => {
                        let amt = tx.amount_or_default();
                        self.held.checked_add(amt).is_some() && self.available.checked_sub(
                            amt,
                        ).is_some()
                    },
                    None => true,
                }
            },
            TxType::Resolve => {
                if self.disputes.contains_key(&txn.tx) {
                    match self.transactions.get(&txn.tx) {
                        Some(tx) => {
                            let amt = tx.amount_or_default();
                            self.held.checked_sub(amt).is_some() && self.available.checked_add(
                                amt,
                            ).is_some()
                        },
                        None => true,
                    }
                } else {
                    true
                }
            },
            TxType::Withdrawal => {
                let amt = txn.amount_or_default();
                if amt <= self.available {
                    self.available.checked_sub(amt).is_some() && self.total.checked_sub(
                        amt,
                    ).is_some()
                } else {
                    true
                }
            },
        }
    }
}

} // verus!

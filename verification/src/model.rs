//! The mathematical model of the ledger.
//!
//! An [`AccountState`] is what one account is, with balances as unbounded
//! integers; [`AccountState::apply`] is the transition that one transaction
//! causes. A [`BankState`] maps each client to the state of its account.

use vstd::prelude::*;
use crate::transaction::{Transaction, TxType};

verus! {

/// The state of one client's account.
#[verifier::ext_equal]
pub struct AccountState {
    pub client: u16,
    pub available: int,
    pub held: int,
    pub total: int,
    pub locked: bool,
    /// The deposits and withdrawals that were applied, by their number. A
    /// later record under the same number replaces the earlier one.
    pub transactions: Map<u32, Transaction>,
    /// The records that a dispute was applied to, by their number, each as
    /// it was kept when the last dispute of it came.
    pub disputes: Map<u32, Transaction>,
    /// The records that a resolve was applied to, by their number, each as
    /// it was kept when the last resolve of it came.
    pub resolves: Map<u32, Transaction>,
}

impl AccountState {
    /// The account of a client for whom nothing has happened yet.
    pub open spec fn new(client: u16) -> AccountState {
        AccountState {
            client,
            available: 0,
            held: 0,
            total: 0,
            locked: false,
            transactions: Map::empty(),
            disputes: Map::empty(),
            resolves: Map::empty(),
        }
    }

    /// The amount of the deposit or withdrawal that `txn` names, zero if that
    /// record carries none.
    pub open spec fn referenced_amount(self, txn: Transaction) -> int {
        self.transactions[txn.tx].magnitude()
    }

    /// Whether `txn` is dropped without any effect on this account.
    ///
    /// A locked account drops everything. Otherwise a withdrawal is dropped
    /// when it exceeds the available balance, a dispute when it names no
    /// applied deposit or withdrawal, a resolve when it names no disputed
    /// one, and a chargeback when it names none that is disputed and not
    /// yet resolved. A deposit is never dropped.
    pub open spec fn rejects(self, txn: Transaction) -> bool {
        self.locked || match txn.kind {
            TxType::Deposit => false,
            TxType::Withdrawal => txn.magnitude() > self.available,
            TxType::Dispute => !self.transactions.contains_key(txn.tx),
            TxType::Resolve => {
                ||| !self.disputes.contains_key(txn.tx)
                ||| !self.transactions.contains_key(txn.tx)
            },
            TxType::ChargeBack => {
                ||| !self.disputes.contains_key(txn.tx)
                ||| self.resolves.contains_key(txn.tx)
                ||| !self.transactions.contains_key(txn.tx)
            },
        }
    }

    /// What `txn` does to an account that does not drop it.
    pub open spec fn perform(self, txn: Transaction) -> AccountState {
        match txn.kind {
            TxType::Deposit => AccountState {
                available: self.available + txn.magnitude(),
                total: self.total + txn.magnitude(),
                transactions: self.transactions.insert(txn.tx, txn),
                ..self
            },
            TxType::Withdrawal => AccountState {
                available: self.available - txn.magnitude(),
                total: self.total - txn.magnitude(),
                transactions: self.transactions.insert(txn.tx, txn),
                ..self
            },
            TxType::Dispute => AccountState {
                available: self.available - self.referenced_amount(txn),
                held: self.held + self.referenced_amount(txn),
                disputes: self.disputes.insert(txn.tx, self.transactions[txn.tx]),
                ..self
            },
            TxType::Resolve => AccountState {
                available: self.available + self.referenced_amount(txn),
                held: self.held - self.referenced_amount(txn),
                resolves: self.resolves.insert(txn.tx, self.transactions[txn.tx]),
                ..self
            },
            TxType::ChargeBack => AccountState {
                available: self.available - self.referenced_amount(txn),
                held: self.held - self.referenced_amount(txn),
                locked: true,
                ..self
            },
        }
    }

    /// The account after `txn`.
    pub open spec fn apply(self, txn: Transaction) -> AccountState {
        if self.rejects(txn) {
            self
        } else {
            self.perform(txn)
        }
    }

    /// The account after the records of `txns`, first to last.
    pub open spec fn apply_all(self, txns: Seq<Transaction>) -> AccountState
        decreases txns.len(),
    {
        if txns.len() == 0 {
            self
        } else {
            self.apply_all(txns.drop_last()).apply(txns.last())
        }
    }

    /// Whether `txn` is a deposit or a withdrawal with the number `tx`.
    pub open spec fn is_posting(txn: Transaction, tx: u32) -> bool {
        &&& txn.tx == tx
        &&& txn.kind is Deposit || txn.kind is Withdrawal
    }

    /// What holds of every account that records alone have shaped: it keeps
    /// deposits and withdrawals only, each under its own number; what was
    /// resolved was disputed and what was disputed was applied; and until a
    /// chargeback locks it, its total is what is available and what is held.
    pub open spec fn consistent(self) -> bool {
        &&& forall|tx: u32| #[trigger]
            self.transactions.contains_key(tx) ==> Self::is_posting(self.transactions[tx], tx)
        &&& forall|tx: u32| #[trigger]
            self.disputes.contains_key(tx) ==> {
                &&& self.transactions.contains_key(tx)
                &&& Self::is_posting(self.disputes[tx], tx)
            }
        &&& forall|tx: u32| #[trigger]
            self.resolves.contains_key(tx) ==> {
                &&& self.disputes.contains_key(tx)
                &&& Self::is_posting(self.resolves[tx], tx)
            }
        &&& !self.locked ==> self.total == self.available + self.held
    }

    /// Whether the three balances fit the 64-bit integers that an account
    /// keeps them in.
    pub open spec fn in_range(self) -> bool {
        &&& i64::MIN <= self.available <= i64::MAX
        &&& i64::MIN <= self.held <= i64::MAX
        &&& i64::MIN <= self.total <= i64::MAX
    }
}

/// The accounts of all clients, each under its client's number.
#[verifier::ext_equal]
pub struct BankState {
    pub accounts: Map<u16, AccountState>,
}

impl BankState {
    /// The bank that holds no account yet.
    pub open spec fn new() -> BankState {
        BankState { accounts: Map::empty() }
    }

    /// The account that a record of `client` is applied to: the one the bank
    /// holds, or a fresh one where it holds none.
    pub open spec fn ledger(self, client: u16) -> AccountState {
        if self.accounts.contains_key(client) {
            self.accounts[client]
        } else {
            AccountState::new(client)
        }
    }

    /// The bank after `txn` was handed to the account of its client. The
    /// account exists afterwards even where it dropped the record.
    pub open spec fn route(self, txn: Transaction) -> BankState {
        BankState { accounts: self.accounts.insert(txn.client, self.ledger(txn.client).apply(txn)) }
    }

    /// The bank after the records of `txns`, first to last.
    pub open spec fn route_all(self, txns: Seq<Transaction>) -> BankState
        decreases txns.len(),
    {
        if txns.len() == 0 {
            self
        } else {
            self.route_all(txns.drop_last()).route(txns.last())
        }
    }

    /// Whether `accounts` lists the accounts of this bank, each of them
    /// once, in whatever order.
    pub open spec fn listed_by(self, accounts: Seq<AccountState>) -> bool {
        &&& accounts.len() == self.accounts.len()
        &&& forall|i: int|
            0 <= i < accounts.len() ==> {
                &&& self.accounts.contains_key(#[trigger] accounts[i].client)
                &&& self.accounts[accounts[i].client] == accounts[i]
            }
        &&& forall|i: int, j: int|
            0 <= i < j < accounts.len() ==> #[trigger] accounts[i].client
                != #[trigger] accounts[j].client
        &&& forall|client: u16| #[trigger]
            self.accounts.contains_key(client) ==> exists|i: int|
                0 <= i < accounts.len() && #[trigger] accounts[i].client == client
    }

    /// What holds of every bank that records alone have shaped: each account
    /// stands under the number of its own client and is consistent.
    pub open spec fn consistent(self) -> bool {
        forall|client: u16| #[trigger]
            self.accounts.contains_key(client) ==> {
                &&& self.accounts[client].client == client
                &&& self.accounts[client].consistent()
            }
    }
}

} // verus!

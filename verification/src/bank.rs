//! The bank: every client's account, and the routing of records to them.

use std::collections::hash_map::Entry;
use std::collections::HashMap;
use vstd::prelude::*;
use vstd::std_specs::hash::spec_hash_map_iter;
use vstd::std_specs::iter::IteratorSpec;
use crate::account::Account;
use crate::model::{AccountState, BankState};
use crate::transaction::Transaction;

verus! {

broadcast use vstd::std_specs::hash::group_hash_axioms;

/// The accounts of all clients, each created by the first record that
/// names its client.
///
/// The view of a bank is its [`BankState`].
pub struct Bank {
    accounts: HashMap<u16, Account>,
}

impl View for Bank {
    type V = BankState;

    closed spec fn view(&self) -> BankState {
        BankState { accounts: self.accounts@.map_values(|account: Account| account@) }
    }
}

/// The states of the accounts that `accounts` refers to, in their order.
pub open spec fn states_of(accounts: Seq<&Account>) -> Seq<AccountState> {
    accounts.map_values(|account: &Account| account@)
}

impl Default for Bank {
    /// A bank without accounts.
    fn default() -> (bank: Bank)
        ensures
            bank@ == BankState::new(),
    {
        Bank { accounts: HashMap::new() }
    }
}

impl Bank {
    /// No account gets into a bank but a fresh one, under the number of its
    /// client, and none changes there but by the records of that client.
    #[verifier::type_invariant]
    spec fn consistent(self) -> bool {
        self@.consistent()
    }

    /// A bank without accounts.
    pub fn new() -> (bank: Bank)
        ensures
            bank@ == BankState::new(),
    {
        Self::default()
    }

    /// Whether the balances that `t` leads to fit in 64 bits, which is what
    /// `add_txn` asks of its caller.
    pub fn can_add(&self, t: &Transaction) -> (ok: bool)
        ensures
            ok == self@.ledger(t.client).apply(*t).in_range(),
    {
        match self.accounts.get(&t.client) {
            Some(account) => account.can_apply(t),
            None => Account::new(t.client).can_apply(t),
        }
    }

    /// Hands `t` to the account of its client, which is created first where
    /// the bank has none.
    ///
    /// The balances that result must fit in 64 bits; `can_add` tests that.
    pub fn add_txn(&mut self, t: Transaction)
        requires
            old(self)@.ledger(t.client).apply(t).in_range(),
        ensures
            final(self)@ == old(self)@.route(t),
            final(self)@.consistent(),
            old(self)@.ledger(t.client).locked ==> final(self)@ == old(self)@,
    {
        proof {
            use_type_invariant(&*self);
        }
        // The map leaves the bank while it changes, so that the bank is
        // never seen in a state that is not consistent.
        let mut accounts = HashMap::new();
        core::mem::swap(&mut self.accounts, &mut accounts);
        match accounts.entry(t.client) {
            Entry::Occupied(mut entry) => {
                let account = entry.get_mut();
                account.apply_txn(t);
            },
            Entry::Vacant(entry) => {
                let client = t.client;
                let mut new_client = Account::new(client);
                new_client.apply_txn(t);
                entry.insert(new_client);
            },
        }
        assert(accounts@.map_values(|account: Account| account@) =~= old(self)@.route(
            t,
        ).accounts);
        core::mem::swap(&mut self.accounts, &mut accounts);
    }

    /// All accounts of the bank, each once, in no particular order.
    pub fn get_accounts_iter(&self) -> (accounts: Vec<&Account>)
        ensures
            self@.listed_by(states_of(accounts@)),
            self@.consistent(),
    {
        proof {
            use_type_invariant(self);
        }
        let ghost pairs = spec_hash_map_iter(&self.accounts).remaining();
        let mut accounts: Vec<&Account> = Vec::new();
        for (client, account) in it: self.accounts.iter()
            invariant
                it.seq() == pairs,
                pairs.no_duplicates(),
                accounts@.len() == it.index(),
                forall|i: int| 0 <= i < it.index() ==> accounts@[i] == it.seq()[i].1,
        {
            accounts.push(account);
        }
        proof {
            // `pairs` holds each key of the map once, with the account
            // stored under it, and the type invariant makes that key the
            // account's client.
            let listed = states_of(accounts@);
            assert(self@.accounts.dom() =~= self.accounts@.dom());
            assert forall|i: int| 0 <= i < listed.len() implies {
                &&& listed[i].client == *pairs[i].0
                &&& self@.accounts.contains_key(*pairs[i].0)
                &&& self@.accounts[*pairs[i].0] == listed[i]
            } by {
                assert(self.accounts@.contains_key(*pairs[i].0));
            }
            assert forall|i: int, j: int| 0 <= i < j < listed.len() implies listed[i].client
                != listed[j].client by {
                if *pairs[i].0 == *pairs[j].0 {
                    assert(self.accounts@[*pairs[j].0] == *pairs[j].1);
                    assert(pairs[i] == pairs[j]);
                }
            }
            assert forall|client: u16| #[trigger]
                self@.accounts.contains_key(client) implies exists|i: int|
                0 <= i < listed.len() && #[trigger] listed[i].client == client by {
                let pair = (&client, &self.accounts@[client]);
                assert(pairs.contains(pair));
                let i = pairs.index_of(pair);
                assert(listed[i].client == client);
            }
        }
        accounts
    }

    /// The accounts of the bank by client number.
    pub fn get_accounts_summary(&self) -> (summary: HashMap<u16, &Account>)
        ensures
            summary@.dom() == self@.accounts.dom(),
            forall|client: u16| #[trigger]
                summary@.contains_key(client) ==> summary@[client]@ == self@.accounts[client],
            self@.consistent(),
    {
        proof {
            use_type_invariant(self);
        }
        let ghost pairs = spec_hash_map_iter(&self.accounts).remaining();
        let mut summary: HashMap<u16, &Account> = HashMap::new();
        for (client_id, account) in it: self.accounts.iter()
            invariant
                it.seq() == pairs,
                forall|client: u16| #[trigger]
                    summary@.contains_key(client) <==> exists|i: int|
                        0 <= i < it.index() && *(#[trigger] pairs[i]).0 == client,
                forall|client: u16| #[trigger]
                    summary@.contains_key(client) ==> self.accounts@.contains_key(client)
                        && *summary@[client] == self.accounts@[client],
        {
            assert(self.accounts@[*pairs[it.index()].0] == *pairs[it.index()].1);
            summary.insert(*client_id, account);
        }
        proof {
            assert forall|client: u16| #[trigger]
                self.accounts@.contains_key(client) implies summary@.contains_key(client) by {
                let pair = (&client, &self.accounts@[client]);
                assert(pairs.contains(pair));
                assert(*pairs[pairs.index_of(pair)].0 == client);
            }
            assert(summary@.dom() =~= self@.accounts.dom());
        }
        summary
    }
}

} // verus!

//! The balances and the lock flag of an account, without its history.

use vstd::prelude::*;
use vstd::std_specs::cmp::PartialEqSpecImpl;
use crate::account::Account;
use crate::model::AccountState;

verus! {

/// What an account shows to the outside: its client, its three balances
/// and whether it is locked.
#[derive(Debug, Clone, Copy, PartialEq, Eq, Structural)]
pub struct AccountSummary {
    pub client: u16,
    pub available: i64,
    pub held: i64,
    pub total: i64,
    pub locked: bool,
}

impl AccountSummary {
    /// Whether this summary holds the client, the balances and the lock
    /// flag of `state`.
    pub open spec fn shows(self, state: AccountState) -> bool {
        &&& self.client == state.client
        &&& self.available == state.available
        &&& self.held == state.held
        &&& self.total == state.total
        &&& self.locked == state.locked
    }
}

impl PartialEq<Account> for AccountSummary {
    /// A summary equals the account whose visible fields it holds.
    fn eq(&self, other: &Account) -> (equal: bool) {
        let shown = other.summary();
        self.client == shown.client && self.available == shown.available && self.held
            == shown.held && self.total == shown.total && self.locked == shown.locked
    }
}

impl PartialEqSpecImpl<Account> for AccountSummary {
    open spec fn obeys_eq_spec() -> bool {
        true
    }

    open spec fn eq_spec(&self, other: &Account) -> bool {
        self.shows(other@)
    }
}

impl PartialEq<AccountSummary> for Account {
    /// An account equals the summary that holds its visible fields.
    fn eq(&self, other: &AccountSummary) -> (equal: bool) {
        let shown = self.summary();
        shown.client == other.client && shown.available == other.available && shown.held
            == other.held && shown.total == other.total && shown.locked == other.locked
    }
}

impl PartialEqSpecImpl<AccountSummary> for Account {
    open spec fn obeys_eq_spec() -> bool {
        true
    }

    open spec fn eq_spec(&self, other: &AccountSummary) -> bool {
        other.shows(self@)
    }
}

} // verus!

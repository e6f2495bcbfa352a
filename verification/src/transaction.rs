//! The input unit of the ledger: one transaction record.

use vstd::prelude::*;

verus! {

/// The five kinds of records.
#[derive(Debug, Clone, Copy)]
pub enum TxType {
    ChargeBack,
    Deposit,
    Dispute,
    Resolve,
    Withdrawal,
}

/// One record of the input stream.
///
/// `tx` identifies a deposit or a withdrawal of `client`; a dispute, a
/// resolve and a chargeback name the deposit or withdrawal they are about by
/// the same number. `amount` is read for deposits and withdrawals only.
#[derive(Debug, Clone, Copy)]
pub struct Transaction {
    pub kind: TxType,
    pub client: u16,
    pub tx: u32,
    pub amount: Option<i64>,
}

impl Transaction {
    /// The amount this record stands for: a missing amount counts as zero.
    pub open spec fn magnitude(self) -> int {
        match self.amount {
            Some(amount) => amount as int,
            None => 0,
        }
    }

    /// The amount of the record, with zero standing in for a missing one.
    pub fn amount_or_default(&self) -> (amount: i64)
        ensures
            amount == self.magnitude(),
    {
        match self.amount {
            Some(amount) => amount,
            None => 0,
        }
    }
}

} // verus!

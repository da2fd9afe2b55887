//! The events the ledger consumes: transactions that move funds, and dispute
//! actions that refer back to an earlier transaction by its id.

use vstd::prelude::*;

use crate::money::Money;

verus! {

/// A funds movement.  The `amount` is expected to be non-negative
/// ([`Money::is_amount`]); the transaction id is expected to be unique over
/// the whole event stream.
#[derive(Clone, Copy, Debug)]
pub enum Transaction {
    Deposit { client: u16, transaction_id: u32, amount: Money },
    Withdrawal { client: u16, transaction_id: u32, amount: Money },
}

impl Transaction {
    /// The client this transaction belongs to.
    pub open spec fn spec_client_id(self) -> u16 {
        match self {
            Transaction::Deposit { client, .. } => client,
            Transaction::Withdrawal { client, .. } => client,
        }
    }

    /// The stream-wide id of this transaction.
    pub open spec fn spec_transaction_id(self) -> u32 {
        match self {
            Transaction::Deposit { transaction_id, .. } => transaction_id,
            Transaction::Withdrawal { transaction_id, .. } => transaction_id,
        }
    }

    /// The amount this transaction moves.
    pub open spec fn spec_amount(self) -> Money {
        match self {
            Transaction::Deposit { amount, .. } => amount,
            Transaction::Withdrawal { amount, .. } => amount,
        }
    }

    /// A transaction the ledger accepts as input: its amount is non-negative
    /// and within bounds.
    pub open spec fn wf(self) -> bool {
        self.spec_amount().is_amount()
    }

    pub fn get_client_id(&self) -> (r: &u16)
        ensures
            *r == self.spec_client_id(),
    {
        match self {
            Transaction::Deposit { client, .. } => client,
            Transaction::Withdrawal { client, .. } => client,
        }
    }

    pub fn get_amount(&self) -> (r: Money)
        ensures
            r == self.spec_amount(),
    {
        match self {
            Transaction::Deposit { amount, .. } => *amount,
            Transaction::Withdrawal { amount, .. } => *amount,
        }
    }

    pub fn get_transaction_id(&self) -> (r: &u32)
        ensures
            *r == self.spec_transaction_id(),
    {
        match self {
            Transaction::Deposit { transaction_id, .. } => transaction_id,
            Transaction::Withdrawal { transaction_id, .. } => transaction_id,
        }
    }
}

/// One step of the dispute lifecycle, referring to an earlier transaction.
/// It carries no amount: the amount is recovered from the referenced
/// transaction.
#[derive(Clone, Copy, Debug)]
pub enum DisputeAction {
    Dispute { client: u16, referenced_transaction_id: u32 },
    Resolve { client: u16, referenced_transaction_id: u32 },
    Chargeback { client: u16, referenced_transaction_id: u32 },
}

impl DisputeAction {
    /// The client this action is addressed to.
    pub open spec fn spec_client_id(self) -> u16 {
        match self {
            DisputeAction::Dispute { client, .. } => client,
            DisputeAction::Resolve { client, .. } => client,
            DisputeAction::Chargeback { client, .. } => client,
        }
    }

    /// The id of the transaction the action refers to.
    pub open spec fn spec_referenced_transaction_id(self) -> u32 {
        match self {
            DisputeAction::Dispute { referenced_transaction_id, .. } => referenced_transaction_id,
            DisputeAction::Resolve { referenced_transaction_id, .. } => referenced_transaction_id,
            DisputeAction::Chargeback { referenced_transaction_id, .. } => {
                referenced_transaction_id
            },
        }
    }

    pub fn get_client_id(&self) -> (r: &u16)
        ensures
            *r == self.spec_client_id(),
    {
        match self {
            DisputeAction::Dispute { client, .. } => client,
            DisputeAction::Resolve { client, .. } => client,
            DisputeAction::Chargeback { client, .. } => client,
        }
    }

    pub fn get_referenced_transaction_id(&self) -> (r: &u32)
        ensures
            *r == self.spec_referenced_transaction_id(),
    {
        match self {
            DisputeAction::Dispute { referenced_transaction_id: id, .. } => id,
            DisputeAction::Resolve { referenced_transaction_id: id, .. } => id,
            DisputeAction::Chargeback { referenced_transaction_id: id, .. } => id,
        }
    }
}

} // verus!

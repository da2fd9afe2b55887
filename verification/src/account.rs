//! One client's ledger: balances, transaction history and lock state.
//!
//! The behaviour of an account is given once, as two specification-level
//! transition functions on [`AccountView`] ([`AccountView::apply_transaction`]
//! and [`AccountView::apply_dispute_action`]); the executable methods of
//! [`ClientAccount`] are proved to follow them exactly.

use vstd::prelude::*;

use std::collections::HashMap;

use crate::events::DisputeAction;
use crate::events::Transaction;
use crate::money::MAX_UNITS;
use crate::money::Money;

verus! {

broadcast use vstd::std_specs::hash::group_hash_axioms;

/// How an account treated a transaction, and where that transaction stands in
/// the dispute lifecycle.
///
/// A transaction starts `Accepted` or `Rejected`.  Only an `Accepted` one can
/// be disputed; a `Disputed` one is either resolved or charged back.
/// `Rejected`, `Resolved` and `Chargebacked` are terminal.
#[derive(Clone, Copy, Debug, PartialEq, Eq, Structural)]
pub enum TransactionState {
    Accepted,
    Rejected,
    Disputed,
    Resolved,
    Chargebacked,
}

/// A history entry: the transaction as it arrived, and its current state.
#[derive(Clone, Copy, Debug)]
pub struct TransactionHistoryRecord {
    pub transaction: Transaction,
    pub state: TransactionState,
}

/// The mathematical state of one account: what [`ClientAccount`] stands for
/// in every contract.  Balances are counts of minor units.
pub ghost struct AccountView {
    pub id: u16,
    pub history: Map<u32, TransactionHistoryRecord>,
    pub disputes: Seq<DisputeAction>,
    pub available: int,
    pub held: int,
    pub locked: bool,
}

impl AccountView {
    /// The state of a freshly created account: empty history, zero balances,
    /// unlocked.
    pub open spec fn initial(id: u16) -> AccountView {
        AccountView {
            id,
            history: Map::empty(),
            disputes: Seq::empty(),
            available: 0,
            held: 0,
            locked: false,
        }
    }

    /// Well-formedness.  `available` may be negative (a deposit can be
    /// disputed after its funds were withdrawn) but `held` never is, both
    /// stay within `MAX_UNITS`, and so does their sum, the account's total.
    /// Every history entry is keyed by its own transaction id, belongs to
    /// this client and carries a well-formed amount.
    pub open spec fn wf(self) -> bool {
        &&& -MAX_UNITS <= self.available <= MAX_UNITS
        &&& 0 <= self.held <= MAX_UNITS
        &&& self.available + self.held <= MAX_UNITS
        &&& forall|tx_id: u32| #[trigger]
            self.history.contains_key(tx_id) ==> {
                &&& self.history[tx_id].transaction.wf()
                &&& self.history[tx_id].transaction.spec_transaction_id() == tx_id
                &&& self.history[tx_id].transaction.spec_client_id() == self.id
            }
    }

    /// Adds a history entry for `t` in the given state, touching nothing
    /// else.
    pub open spec fn record(self, t: Transaction, state: TransactionState) -> AccountView {
        AccountView {
            history: self.history.insert(
                t.spec_transaction_id(),
                TransactionHistoryRecord { transaction: t, state },
            ),
            ..self
        }
    }

    /// Moves the referenced transaction to `state` and logs the dispute
    /// action that caused the move, leaving balances and lock state alone.
    pub open spec fn transition(
        self,
        rid: u32,
        state: TransactionState,
        d: DisputeAction,
    ) -> AccountView {
        AccountView {
            history: self.history.insert(
                rid,
                TransactionHistoryRecord { transaction: self.history[rid].transaction, state },
            ),
            disputes: self.disputes.push(d),
            ..self
        }
    }

    /// The account after one transaction addressed to this client.
    ///
    /// A transaction id already in the history is ignored outright: the first
    /// occurrence of an id is authoritative, and a reused id is never
    /// reinterpreted as a different transaction.  On a locked account every
    /// transaction is recorded `Rejected` and moves no funds.  A deposit
    /// whose amount would push the account's total past `MAX_UNITS` is
    /// recorded `Rejected`, like a withdrawal past the available funds: the
    /// ledger never overflows and never panics.
    pub open spec fn apply_transaction(self, t: Transaction) -> AccountView {
        let a = t.spec_amount()@;
        if self.history.contains_key(t.spec_transaction_id()) {
            self
        } else if self.locked {
            self.record(t, TransactionState::Rejected)
        } else {
            match t {
                Transaction::Deposit { .. } => {
                    if self.available + self.held + a <= MAX_UNITS {
                        AccountView {
                            available: self.available + a,
                            ..self.record(t, TransactionState::Accepted)
                        }
                    } else {
                        self.record(t, TransactionState::Rejected)
                    }
                },
                Transaction::Withdrawal { .. } => {
                    if self.available >= a {
                        AccountView {
                            available: self.available - a,
                            ..self.record(t, TransactionState::Accepted)
                        }
                    } else {
                        self.record(t, TransactionState::Rejected)
                    }
                },
            }
        }
    }

    /// The account after one dispute action addressed to this client.
    ///
    /// A locked account ignores every dispute action, and an action whose
    /// referenced transaction id has no history entry here is dropped
    /// silently.  Otherwise the outcome is keyed by the pair of the
    /// referenced transaction's current state and the action's kind; each
    /// pairing is written out, and every pairing not in the lifecycle is a
    /// no-op.  Disputing a deposit moves its amount from `available` to
    /// `held`; disputing a withdrawal moves nothing until adjudication.
    /// Resolving returns a deposit's amount from `held` to `available` and
    /// refunds a withdrawal's amount to `available`.  A chargeback removes a
    /// deposit's amount from `held`, moves nothing for a withdrawal, and
    /// permanently locks the account either way.  A transition whose
    /// arithmetic would leave well-formed bounds is a no-op instead.
    pub open spec fn apply_dispute_action(self, d: DisputeAction) -> AccountView {
        let rid = d.spec_referenced_transaction_id();
        if self.locked {
            self
        } else if !self.history.contains_key(rid) {
            self
        } else {
            let rec = self.history[rid];
            let a = rec.transaction.spec_amount()@;
            match (rec.state, d) {
                (TransactionState::Accepted, DisputeAction::Dispute { .. }) => {
                    match rec.transaction {
                        Transaction::Deposit { .. } => {
                            if self.available - a >= -MAX_UNITS && self.held + a <= MAX_UNITS {
                                AccountView {
                                    available: self.available - a,
                                    held: self.held + a,
                                    ..self.transition(rid, TransactionState::Disputed, d)
                                }
                            } else {
                                self
                            }
                        },
                        Transaction::Withdrawal { .. } => {
                            self.transition(rid, TransactionState::Disputed, d)
                        },
                    }
                },
                (TransactionState::Rejected, DisputeAction::Dispute { .. }) => self,
                (TransactionState::Disputed, DisputeAction::Dispute { .. }) => self,
                (TransactionState::Resolved, DisputeAction::Dispute { .. }) => self,
                (TransactionState::Chargebacked, DisputeAction::Dispute { .. }) => self,
                (TransactionState::Disputed, DisputeAction::Resolve { .. }) => {
                    match rec.transaction {
                        Transaction::Deposit { .. } => {
                            if self.held >= a {
                                AccountView {
                                    available: self.available + a,
                                    held: self.held - a,
                                    ..self.transition(rid, TransactionState::Resolved, d)
                                }
                            } else {
                                self
                            }
                        },
                        Transaction::Withdrawal { .. } => {
                            if self.available + self.held + a <= MAX_UNITS {
                                AccountView {
                                    available: self.available + a,
                                    ..self.transition(rid, TransactionState::Resolved, d)
                                }
                            } else {
                                self
                            }
                        },
                    }
                },
                (TransactionState::Accepted, DisputeAction::Resolve { .. }) => self,
                (TransactionState::Rejected, DisputeAction::Resolve { .. }) => self,
                (TransactionState::Resolved, DisputeAction::Resolve { .. }) => self,
                (TransactionState::Chargebacked, DisputeAction::Resolve { .. }) => self,
                (TransactionState::Disputed, DisputeAction::Chargeback { .. }) => {
                    match rec.transaction {
                        Transaction::Deposit { .. } => {
                            if self.held >= a {
                                AccountView {
                                    held: self.held - a,
                                    locked: true,
                                    ..self.transition(rid, TransactionState::Chargebacked, d)
                                }
                            } else {
                                self
                            }
                        },
                        Transaction::Withdrawal { .. } => {
                            AccountView {
                                locked: true,
                                ..self.transition(rid, TransactionState::Chargebacked, d)
                            }
                        },
                    }
                },
                (TransactionState::Accepted, DisputeAction::Chargeback { .. }) => self,
                (TransactionState::Rejected, DisputeAction::Chargeback { .. }) => self,
                (TransactionState::Resolved, DisputeAction::Chargeback { .. }) => self,
                (TransactionState::Chargebacked, DisputeAction::Chargeback { .. }) => self,
            }
        }
    }
}

/// One client's ledger.
pub struct ClientAccount {
    pub id: u16,
    /// Every transaction ever addressed to this client, keyed by transaction
    /// id, with its current state.
    pub transaction_history: HashMap<u32, TransactionHistoryRecord>,
    /// The dispute actions that caused a state transition, in arrival order.
    pub dispute_history: Vec<DisputeAction>,
    pub available: Money,
    pub held: Money,
    pub locked: bool,
}

impl View for ClientAccount {
    type V = AccountView;

    open spec fn view(&self) -> AccountView {
        AccountView {
            id: self.id,
            history: self.transaction_history@,
            disputes: self.dispute_history@,
            available: self.available@,
            held: self.held@,
            locked: self.locked,
        }
    }
}

impl ClientAccount {
    pub fn new(id: u16) -> (r: ClientAccount)
        ensures
            r@ == AccountView::initial(id),
            r@.wf(),
    {
        let r = ClientAccount {
            id,
            transaction_history: HashMap::new(),
            dispute_history: Vec::new(),
            available: Money::zero(),
            held: Money::zero(),
            locked: false,
        };
        proof {
            assert(r@ =~~= AccountView::initial(id));
        }
        r
    }

    /// Applies one transaction.  Fails, returning the transaction, only when
    /// it is addressed to another client; every transaction for this client
    /// is absorbed as [`AccountView::apply_transaction`] says.
    pub fn add_transaction(&mut self, transaction: Transaction) -> (r: Result<(), Transaction>)
        requires
            old(self)@.wf(),
            transaction.wf(),
        ensures
            transaction.spec_client_id() != old(self)@.id ==> {
                &&& r == Result::<(), Transaction>::Err(transaction)
                &&& final(self)@ == old(self)@
            },
            transaction.spec_client_id() == old(self)@.id ==> {
                &&& r == Result::<(), Transaction>::Ok(())
                &&& final(self)@ == old(self)@.apply_transaction(transaction)
            },
            final(self)@.wf(),
    {
        if *transaction.get_client_id() != self.id {
            return Err(transaction);
        }
        let tx_id = *transaction.get_transaction_id();
        if self.transaction_history.contains_key(&tx_id) {
            return Ok(());
        }
        if self.locked {
            self.transaction_history.insert(
                tx_id,
                TransactionHistoryRecord { transaction, state: TransactionState::Rejected },
            );
            return Ok(());
        }
        match transaction {
            Transaction::Deposit { amount, .. } => {
                let a = amount.units();
                let av = self.available.units();
                let h = self.held.units();
                if av + h + a <= MAX_UNITS {
                    self.available = Money::from_units(av + a);
                    self.transaction_history.insert(
                        tx_id,
                        TransactionHistoryRecord { transaction, state: TransactionState::Accepted },
                    );
                } else {
                    self.transaction_history.insert(
                        tx_id,
                        TransactionHistoryRecord { transaction, state: TransactionState::Rejected },
                    );
                }
            },
            Transaction::Withdrawal { amount, .. } => {
                let a = amount.units();
                let av = self.available.units();
                if av >= a {
                    self.available = Money::from_units(av - a);
                    self.transaction_history.insert(
                        tx_id,
                        TransactionHistoryRecord { transaction, state: TransactionState::Accepted },
                    );
                } else {
                    self.transaction_history.insert(
                        tx_id,
                        TransactionHistoryRecord { transaction, state: TransactionState::Rejected },
                    );
                }
            },
        }
        Ok(())
    }

    /// Applies one dispute action.  Fails, returning the action, only when it
    /// is addressed to another client; every action for this client is
    /// absorbed as [`AccountView::apply_dispute_action`] says.
    pub fn add_dispute_action(&mut self, dispute_action: DisputeAction) -> (r: Result<
        (),
        DisputeAction,
    >)
        requires
            old(self)@.wf(),
        ensures
            dispute_action.spec_client_id() != old(self)@.id ==> {
                &&& r == Result::<(), DisputeAction>::Err(dispute_action)
                &&& final(self)@ == old(self)@
            },
            dispute_action.spec_client_id() == old(self)@.id ==> {
                &&& r == Result::<(), DisputeAction>::Ok(())
                &&& final(self)@ == old(self)@.apply_dispute_action(dispute_action)
            },
            final(self)@.wf(),
    {
        if *dispute_action.get_client_id() != self.id {
            return Err(dispute_action);
        }
        if self.locked {
            return Ok(());
        }
        let rid = *dispute_action.get_referenced_transaction_id();
        let rec = match self.transaction_history.get(&rid) {
            Some(r) => *r,
            None => {
                // Unknown or misdirected reference: operator noise, dropped
                // without a trace.
                return Ok(());
            },
        };
        let a = rec.transaction.get_amount().units();
        let av = self.available.units();
        let h = self.held.units();
        match (rec.state, dispute_action) {
            (TransactionState::Accepted, DisputeAction::Dispute { .. }) => {
                match rec.transaction {
                    Transaction::Deposit { .. } => {
                        if av - a >= -MAX_UNITS && h + a <= MAX_UNITS {
                            self.available = Money::from_units(av - a);
                            self.held = Money::from_units(h + a);
                            self.set_state(rid, rec, TransactionState::Disputed, dispute_action);
                        }
                    },
                    Transaction::Withdrawal { .. } => {
                        // Nothing left to freeze: the funds already left
                        // `available` when the withdrawal was accepted.
                        self.set_state(rid, rec, TransactionState::Disputed, dispute_action);
                    },
                }
            },
            (TransactionState::Rejected, DisputeAction::Dispute { .. }) => {},
            (TransactionState::Disputed, DisputeAction::Dispute { .. }) => {},
            (TransactionState::Resolved, DisputeAction::Dispute { .. }) => {},
            (TransactionState::Chargebacked, DisputeAction::Dispute { .. }) => {},
            (TransactionState::Disputed, DisputeAction::Resolve { .. }) => {
                match rec.transaction {
                    Transaction::Deposit { .. } => {
                        if h >= a {
                            self.available = Money::from_units(av + a);
                            self.held = Money::from_units(h - a);
                            self.set_state(rid, rec, TransactionState::Resolved, dispute_action);
                        }
                    },
                    Transaction::Withdrawal { .. } => {
                        // The withdrawal is deemed erroneous: refund its
                        // amount.
                        if av + h + a <= MAX_UNITS {
                            self.available = Money::from_units(av + a);
                            self.set_state(rid, rec, TransactionState::Resolved, dispute_action);
                        }
                    },
                }
            },
            (TransactionState::Accepted, DisputeAction::Resolve { .. }) => {},
            (TransactionState::Rejected, DisputeAction::Resolve { .. }) => {},
            (TransactionState::Resolved, DisputeAction::Resolve { .. }) => {},
            (TransactionState::Chargebacked, DisputeAction::Resolve { .. }) => {},
            (TransactionState::Disputed, DisputeAction::Chargeback { .. }) => {
                match rec.transaction {
                    Transaction::Deposit { .. } => {
                        if h >= a {
                            self.held = Money::from_units(h - a);
                            self.locked = true;
                            self.set_state(
                                rid,
                                rec,
                                TransactionState::Chargebacked,
                                dispute_action,
                            );
                        }
                    },
                    Transaction::Withdrawal { .. } => {
                        // The withdrawal already debited correctly, so no
                        // funds move; the account is still frozen.
                        self.locked = true;
                        self.set_state(rid, rec, TransactionState::Chargebacked, dispute_action);
                    },
                }
            },
            (TransactionState::Accepted, DisputeAction::Chargeback { .. }) => {},
            (TransactionState::Rejected, DisputeAction::Chargeback { .. }) => {},
            (TransactionState::Resolved, DisputeAction::Chargeback { .. }) => {},
            (TransactionState::Chargebacked, DisputeAction::Chargeback { .. }) => {},
        }
        Ok(())
    }

    /// Rewrites the referenced transaction's history entry with `state` and
    /// logs the action, leaving balances and lock alone.
    fn set_state(
        &mut self,
        rid: u32,
        rec: TransactionHistoryRecord,
        state: TransactionState,
        d: DisputeAction,
    )
        requires
            old(self)@.history.contains_key(rid),
            old(self)@.history[rid] == rec,
        ensures
            final(self)@ == old(self)@.transition(rid, state, d),
    {
        self.transaction_history.insert(
            rid,
            TransactionHistoryRecord { transaction: rec.transaction, state },
        );
        self.dispute_history.push(d);
    }

    pub fn id(&self) -> (r: u16)
        ensures
            r == self@.id,
    {
        self.id
    }

    pub fn available(&self) -> (r: Money)
        ensures
            r@ == self@.available,
    {
        self.available
    }

    pub fn held(&self) -> (r: Money)
        ensures
            r@ == self@.held,
    {
        self.held
    }

    /// The account's total: always derived as `available + held`, never
    /// stored.
    pub fn total(&self) -> (r: Money)
        requires
            self@.wf(),
        ensures
            r@ == self@.available + self@.held,
    {
        Money::from_units(self.available.units() + self.held.units())
    }

    pub fn locked(&self) -> (r: bool)
        ensures
            r == self@.locked,
    {
        self.locked
    }
}

} // verus!

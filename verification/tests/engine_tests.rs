use banking::engine::PaymentEngine;
use banking::events::DisputeAction;
use banking::events::Transaction;
use banking::money::Money;

/// The amount `mantissa / 10^scale`.
fn money(mantissa: i128, scale: u32) -> Money {
    Money::from_scaled(mantissa, scale).unwrap()
}

#[test]
fn no_transactions_no_problem() {
    let payment_engine = PaymentEngine::default();
    assert_eq!(payment_engine.get_all_client_states().len(), 0);
}

#[test]
fn simple_deposit() {
    let client = 1;
    let amount = money(20, 1);
    let mut payment_engine = PaymentEngine::default();
    payment_engine.add_transaction(Transaction::Deposit {
        client,
        transaction_id: 1,
        amount,
    });

    assert_eq!(payment_engine.get_all_client_states().len(), 1);
    assert_eq!(
        payment_engine.get_client_state(client).unwrap().available(),
        amount
    );
}

#[test]
fn withdrawal_with_no_funds_available() {
    let client = 1;
    let amount = money(20, 1);
    let mut payment_engine = PaymentEngine::default();
    payment_engine.add_transaction(Transaction::Withdrawal {
        client,
        transaction_id: 1,
        amount,
    });

    assert_eq!(payment_engine.get_all_client_states().len(), 1);
    assert_eq!(
        payment_engine.get_client_state(client).unwrap().available(),
        Money::zero()
    );
}

#[test]
fn withdrawal_after_deposit_for_same_amount() {
    let client = 1;
    let amount = money(20, 1);
    let mut payment_engine = PaymentEngine::default();
    payment_engine.add_transaction(Transaction::Deposit {
        client,
        transaction_id: 1,
        amount,
    });
    payment_engine.add_transaction(Transaction::Withdrawal {
        client,
        transaction_id: 2,
        amount,
    });

    assert_eq!(payment_engine.get_all_client_states().len(), 1);
    assert_eq!(
        payment_engine.get_client_state(client).unwrap().available(),
        Money::zero()
    );
}

#[test]
fn withdrawal_after_deposit_for_less_amount() {
    let client = 1;
    let amount = money(20, 1);
    let mut payment_engine = PaymentEngine::default();
    payment_engine.add_transaction(Transaction::Deposit {
        client,
        transaction_id: 1,
        amount,
    });
    payment_engine.add_transaction(Transaction::Withdrawal {
        client,
        transaction_id: 2,
        amount: money(10, 1),
    });

    assert_eq!(payment_engine.get_all_client_states().len(), 1);
    assert_eq!(
        payment_engine.get_client_state(client).unwrap().available(),
        money(1, 0)
    );
}

#[test]
fn dispute_after_deposit_total_remains_same() {
    let client = 1;
    let amount = money(20, 1);
    let mut payment_engine = PaymentEngine::default();
    payment_engine.add_transaction(Transaction::Deposit {
        client,
        transaction_id: 1,
        amount,
    });
    payment_engine.add_dispute_action(DisputeAction::Dispute {
        client,
        referenced_transaction_id: 1,
    });

    assert_eq!(payment_engine.get_all_client_states().len(), 1);
    assert_eq!(
        payment_engine.get_client_state(client).unwrap().total(),
        amount
    );
    assert_eq!(
        payment_engine.get_client_state(client).unwrap().available(),
        Money::zero()
    );
}

#[test]
fn chargeback_causes_locked_account() {
    let client = 1;
    let amount = money(20, 1);
    let mut payment_engine = PaymentEngine::default();
    payment_engine.add_transaction(Transaction::Deposit {
        client,
        transaction_id: 1,
        amount,
    });
    payment_engine.add_dispute_action(DisputeAction::Dispute {
        client,
        referenced_transaction_id: 1,
    });
    payment_engine.add_dispute_action(DisputeAction::Chargeback {
        client,
        referenced_transaction_id: 1,
    });

    assert_eq!(payment_engine.get_all_client_states().len(), 1);
    let client_state = payment_engine.get_client_state(client).unwrap();

    assert!(client_state.locked());

    assert_eq!(client_state.total(), Money::zero());
}

#[test]
fn dispute_resolve() {
    let client = 1;
    let amount = money(20, 1);
    let mut payment_engine = PaymentEngine::default();
    payment_engine.add_transaction(Transaction::Deposit {
        client,
        transaction_id: 1,
        amount,
    });
    payment_engine.add_dispute_action(DisputeAction::Dispute {
        client,
        referenced_transaction_id: 1,
    });
    payment_engine.add_dispute_action(DisputeAction::Resolve {
        client,
        referenced_transaction_id: 1,
    });

    assert_eq!(payment_engine.get_all_client_states().len(), 1);
    let client_state = payment_engine.get_client_state(client).unwrap();

    assert!(!client_state.locked());
    assert_eq!(client_state.total(), amount);
    assert_eq!(client_state.available(), amount);
}

#[test]
fn double_dispute_doesnt_hold_twice() {
    let client = 1;
    let amount = money(20, 1);
    let mut payment_engine = PaymentEngine::default();
    payment_engine.add_transaction(Transaction::Deposit {
        client,
        transaction_id: 1,
        amount,
    });
    payment_engine.add_dispute_action(DisputeAction::Dispute {
        client,
        referenced_transaction_id: 1,
    });

    payment_engine.add_dispute_action(DisputeAction::Dispute {
        client,
        referenced_transaction_id: 1,
    });

    assert_eq!(payment_engine.get_all_client_states().len(), 1);
    assert_eq!(
        payment_engine.get_client_state(client).unwrap().total(),
        amount
    );
    assert_eq!(
        payment_engine.get_client_state(client).unwrap().available(),
        Money::zero()
    );
}

#[test]
fn disputing_rejected_withdrawal_does_nothing() {
    let client = 1;
    let amount = money(20, 1);
    let mut payment_engine = PaymentEngine::default();
    payment_engine.add_transaction(Transaction::Deposit {
        client,
        transaction_id: 1,
        amount,
    });
    payment_engine.add_transaction(Transaction::Withdrawal {
        client,
        transaction_id: 2,
        amount: money(30, 1),
    });
    payment_engine.add_dispute_action(DisputeAction::Dispute {
        client,
        referenced_transaction_id: 2,
    });

    assert_eq!(payment_engine.get_all_client_states().len(), 1);
    assert_eq!(
        payment_engine.get_client_state(client).unwrap().total(),
        amount
    );
    assert_eq!(
        payment_engine.get_client_state(client).unwrap().available(),
        amount
    );
}

#[test]
fn multiple_clients() {
    let mut payment_engine = PaymentEngine::default();
    payment_engine.add_transaction(Transaction::Deposit {
        client: 1,
        transaction_id: 1,
        amount: money(20, 1),
    });
    payment_engine.add_transaction(Transaction::Deposit {
        client: 2,
        transaction_id: 2,
        amount: money(40, 1),
    });
    payment_engine.add_transaction(Transaction::Deposit {
        client: 1,
        transaction_id: 3,
        amount: money(90, 1),
    });
    payment_engine.add_transaction(Transaction::Withdrawal {
        client: 1,
        transaction_id: 4,
        amount: money(10, 1),
    });
    payment_engine.add_transaction(Transaction::Withdrawal {
        client: 2,
        transaction_id: 5,
        amount: money(10, 1),
    });

    assert_eq!(payment_engine.get_all_client_states().len(), 2);
    assert_eq!(
        payment_engine.get_client_state(1).unwrap().available(),
        money(100, 1)
    );
    assert_eq!(
        payment_engine.get_client_state(2).unwrap().available(),
        money(30, 1)
    );
}

#[test]
fn disputing_another_client_than_the_transaction_does_nothing() {
    let mut payment_engine = PaymentEngine::default();
    payment_engine.add_transaction(Transaction::Deposit {
        client: 1,
        transaction_id: 1,
        amount: money(20, 1),
    });

    payment_engine.add_dispute_action(DisputeAction::Dispute {
        client: 2, // Another client than made the transaction!
        referenced_transaction_id: 1,
    });

    assert_eq!(payment_engine.get_all_client_states().len(), 2);
    assert_eq!(
        payment_engine.get_client_state(1).unwrap().available(),
        money(20, 1)
    );
    assert_eq!(
        payment_engine.get_client_state(1).unwrap().held(),
        Money::zero()
    );
    assert_eq!(payment_engine.get_client_state(1).unwrap().locked(), false);

    //The other client has been inserted as well!
    assert_eq!(
        payment_engine.get_client_state(2).unwrap().available(),
        Money::zero()
    );
    assert_eq!(
        payment_engine.get_client_state(2).unwrap().held(),
        Money::zero()
    );
    assert_eq!(payment_engine.get_client_state(2).unwrap().locked(), false);
}

#[test]
fn dispute_withdrawal_and_resolve() {
    let mut payment_engine = PaymentEngine::default();
    payment_engine.add_transaction(Transaction::Deposit {
        client: 1,
        transaction_id: 1,
        amount: money(20, 1),
    });

    payment_engine.add_transaction(Transaction::Withdrawal {
        client: 1,
        transaction_id: 2,
        amount: money(10, 1),
    });

    payment_engine.add_dispute_action(DisputeAction::Dispute {
        client: 1,
        referenced_transaction_id: 2,
    });

    payment_engine.add_dispute_action(DisputeAction::Resolve {
        client: 1,
        referenced_transaction_id: 2,
    });

    assert_eq!(
        payment_engine.get_client_state(1).unwrap().held(),
        Money::zero()
    );
    assert_eq!(
        payment_engine.get_client_state(1).unwrap().available(),
        money(20, 1)
    );
    assert_eq!(payment_engine.get_client_state(1).unwrap().locked(), false);
}

#[test]
fn dispute_withdrawal_and_charge_back() {
    let mut payment_engine = PaymentEngine::default();
    payment_engine.add_transaction(Transaction::Deposit {
        client: 1,
        transaction_id: 1,
        amount: money(20, 1),
    });

    payment_engine.add_transaction(Transaction::Withdrawal {
        client: 1,
        transaction_id: 2,
        amount: money(10, 1),
    });

    payment_engine.add_dispute_action(DisputeAction::Dispute {
        client: 1,
        referenced_transaction_id: 2,
    });

    payment_engine.add_dispute_action(DisputeAction::Chargeback {
        client: 1,
        referenced_transaction_id: 2,
    });

    assert_eq!(
        payment_engine.get_client_state(1).unwrap().held(),
        Money::zero()
    );
    assert_eq!(
        payment_engine.get_client_state(1).unwrap().available(),
        money(10, 1)
    );
    assert_eq!(payment_engine.get_client_state(1).unwrap().locked(), true);
}

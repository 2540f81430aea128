use escrow_service::audit::AuditModule;
use escrow_service::dispute_resolution::DisputeResolutionModule;
use escrow_service::errors::EscrowError;
use escrow_service::store::EscrowStore;
use escrow_service::types::{Dispute, DisputeState, Transaction, TransactionState};

fn sample_transaction(state: TransactionState) -> Transaction {
    Transaction {
        id: "txn1".to_string(),
        buyer: "buyer".to_string(),
        seller: "seller".to_string(),
        amount: 1000,
        token: "token".to_string(),
        state,
    }
}

#[test]
fn test_raise_dispute_success() {
    let mut store = EscrowStore::new();
    let transaction_id = "txn1".to_string();
    let buyer = "buyer".to_string();

    // Create a transaction in the deposit state
    store.put_transaction(&transaction_id, sample_transaction(TransactionState::Deposit));

    // Raise a dispute
    DisputeResolutionModule::raise_dispute(&mut store, &transaction_id, buyer.clone()).unwrap();

    // Verify the transaction state is updated to Dispute
    let updated_transaction = store.transaction(&transaction_id).unwrap();
    assert_eq!(updated_transaction.state, TransactionState::Dispute);

    // Verify the dispute is stored
    let dispute = store.dispute(&transaction_id).unwrap();
    assert_eq!(dispute.transaction_id, transaction_id);
    assert_eq!(dispute.raiser, buyer);
    assert_eq!(dispute.state, DisputeState::Open);
}

#[test]
#[should_panic(expected = "InvalidTransactionState")]
fn test_raise_dispute_invalid_state() {
    let mut store = EscrowStore::new();
    let transaction_id = "txn1".to_string();

    // Create a transaction in the setup state
    store.put_transaction(&transaction_id, sample_transaction(TransactionState::Setup));

    // Attempt to raise a dispute, which should panic
    DisputeResolutionModule::raise_dispute(&mut store, &transaction_id, "buyer".to_string())
        .unwrap();
}

#[test]
fn test_resolve_dispute_success() {
    let mut store = EscrowStore::new();
    let transaction_id = "txn1".to_string();
    let arbitrator = "arbitrator".to_string();

    // Create a transaction in the dispute state
    store.put_transaction(&transaction_id, sample_transaction(TransactionState::Dispute));

    // Create a dispute
    store.put_dispute(
        &transaction_id,
        Dispute {
            transaction_id: transaction_id.clone(),
            raiser: "buyer".to_string(),
            state: DisputeState::Open,
        },
    );

    // Resolve the dispute: the arbitrator authorized the call
    DisputeResolutionModule::resolve_dispute(&mut store, &transaction_id, &arbitrator, true)
        .unwrap();

    // Verify the transaction state is updated to Complete
    let updated_transaction = store.transaction(&transaction_id).unwrap();
    assert_eq!(updated_transaction.state, TransactionState::Complete);

    // Verify the dispute state is updated to Resolved
    let updated_dispute = store.dispute(&transaction_id).unwrap();
    assert_eq!(updated_dispute.state, DisputeState::Resolved);

    // Verify the resolution left its audit entry
    let logs = AuditModule::get_audit_logs(&store, &transaction_id);
    assert_eq!(logs.len(), 1);
    assert_eq!(logs[0].action, "resolve_dispute");
}

#[test]
#[should_panic(expected = "InvalidDisputeState")]
fn test_resolve_dispute_invalid_state() {
    let mut store = EscrowStore::new();
    let transaction_id = "txn1".to_string();
    let arbitrator = "arbitrator".to_string();

    // Create a transaction in the dispute state
    store.put_transaction(&transaction_id, sample_transaction(TransactionState::Dispute));

    // Create a resolved dispute
    store.put_dispute(
        &transaction_id,
        Dispute {
            transaction_id: transaction_id.clone(),
            raiser: "buyer".to_string(),
            state: DisputeState::Resolved,
        },
    );

    // Attempt to resolve the dispute, which should panic
    DisputeResolutionModule::resolve_dispute(&mut store, &transaction_id, &arbitrator, true)
        .unwrap();
}

#[test]
fn test_raise_dispute_unauthorized_raiser() {
    let mut store = EscrowStore::new();
    let transaction_id = "txn1".to_string();
    store.put_transaction(&transaction_id, sample_transaction(TransactionState::Deposit));

    // A raiser outside the agreement's two parties is rejected
    let result = DisputeResolutionModule::raise_dispute(
        &mut store,
        &transaction_id,
        "outsider".to_string(),
    );
    assert_eq!(result, Err(EscrowError::Unauthorized));
    assert_eq!(
        store.transaction(&transaction_id).unwrap().state,
        TransactionState::Deposit
    );
}

#[test]
fn test_raise_dispute_by_seller() {
    let mut store = EscrowStore::new();
    let transaction_id = "txn1".to_string();
    store.put_transaction(&transaction_id, sample_transaction(TransactionState::Deposit));

    // The seller is a party to the agreement and may raise a dispute too
    DisputeResolutionModule::raise_dispute(&mut store, &transaction_id, "seller".to_string())
        .unwrap();
    assert_eq!(store.dispute(&transaction_id).unwrap().raiser, "seller");
}

#[test]
fn test_raise_dispute_transaction_not_found() {
    let mut store = EscrowStore::new();
    let result = DisputeResolutionModule::raise_dispute(
        &mut store,
        &"txn1".to_string(),
        "buyer".to_string(),
    );
    assert_eq!(result, Err(EscrowError::TransactionNotFound));
}

#[test]
fn test_resolve_dispute_not_found() {
    let mut store = EscrowStore::new();
    let transaction_id = "txn1".to_string();
    store.put_transaction(&transaction_id, sample_transaction(TransactionState::Dispute));

    let result = DisputeResolutionModule::resolve_dispute(
        &mut store,
        &transaction_id,
        &"arbitrator".to_string(),
        true,
    );
    assert_eq!(result, Err(EscrowError::DisputeNotFound));
}

#[test]
fn test_resolve_dispute_unauthorized_arbitrator() {
    let mut store = EscrowStore::new();
    let transaction_id = "txn1".to_string();
    store.put_transaction(&transaction_id, sample_transaction(TransactionState::Dispute));
    store.put_dispute(
        &transaction_id,
        Dispute {
            transaction_id: transaction_id.clone(),
            raiser: "buyer".to_string(),
            state: DisputeState::Open,
        },
    );

    // The identity verifier rejected the arbitrator's authorization
    let result = DisputeResolutionModule::resolve_dispute(
        &mut store,
        &transaction_id,
        &"arbitrator".to_string(),
        false,
    );
    assert_eq!(result, Err(EscrowError::Unauthorized));
    assert_eq!(
        store.dispute(&transaction_id).unwrap().state,
        DisputeState::Open
    );
}

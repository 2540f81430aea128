use escrow_service::audit::AuditModule;
use escrow_service::errors::EscrowError;
use escrow_service::fund_management::FundManagementModule;
use escrow_service::store::EscrowStore;
use escrow_service::types::{Transaction, TransactionState};

fn sample_transaction(state: TransactionState) -> Transaction {
    Transaction {
        id: "txn1".to_string(),
        buyer: "buyer".to_string(),
        seller: "seller".to_string(),
        amount: 1000,
        token: "token".to_string(),
        state,
    }
}

#[test]
fn test_deposit_funds_success() {
    let mut store = EscrowStore::new();
    let transaction_id = "txn1".to_string();

    // Create a transaction in the setup state
    store.put_transaction(&transaction_id, sample_transaction(TransactionState::Setup));

    // Deposit funds into escrow: the buyer authorized the call and the
    // transfer of the funds to custody went through
    let transaction = sample_transaction(TransactionState::Setup);
    FundManagementModule::deposit_funds(&mut store, &transaction, true, true).unwrap();

    // Verify the transaction state is updated to Deposit
    let updated_transaction = store.transaction(&transaction_id).unwrap();
    assert_eq!(updated_transaction.state, TransactionState::Deposit);

    // Verify the deposit left its audit entry
    let logs = AuditModule::get_audit_logs(&store, &transaction_id);
    assert_eq!(logs.len(), 1);
    assert_eq!(logs[0].action, "deposit_funds");
}

#[test]
#[should_panic(expected = "InvalidTransactionState")]
fn test_deposit_funds_invalid_state() {
    let mut store = EscrowStore::new();
    let transaction_id = "txn1".to_string();

    // Create a transaction in the deposit state
    store.put_transaction(&transaction_id, sample_transaction(TransactionState::Deposit));

    // Attempt to deposit funds into escrow, which should panic
    let transaction = sample_transaction(TransactionState::Deposit);
    FundManagementModule::deposit_funds(&mut store, &transaction, true, true).unwrap();
}

#[test]
fn test_release_funds_success() {
    let mut store = EscrowStore::new();
    let transaction_id = "txn1".to_string();

    // Create a transaction in the deposit state
    store.put_transaction(&transaction_id, sample_transaction(TransactionState::Deposit));

    // Release funds from escrow
    let transaction = sample_transaction(TransactionState::Deposit);
    FundManagementModule::release_funds(&mut store, &transaction).unwrap();

    // Verify the transaction state is updated to Complete
    let updated_transaction = store.transaction(&transaction_id).unwrap();
    assert_eq!(updated_transaction.state, TransactionState::Complete);

    // Verify the release left its audit entry
    let logs = AuditModule::get_audit_logs(&store, &transaction_id);
    assert_eq!(logs.len(), 1);
    assert_eq!(logs[0].action, "release_funds");
}

#[test]
#[should_panic(expected = "InvalidTransactionState")]
fn test_release_funds_invalid_state() {
    let mut store = EscrowStore::new();
    let transaction_id = "txn1".to_string();

    // Create a transaction in the setup state
    store.put_transaction(&transaction_id, sample_transaction(TransactionState::Setup));

    // Attempt to release funds from escrow, which should panic
    let transaction = sample_transaction(TransactionState::Setup);
    FundManagementModule::release_funds(&mut store, &transaction).unwrap();
}

#[test]
fn test_deposit_funds_unauthorized() {
    let mut store = EscrowStore::new();
    let transaction_id = "txn1".to_string();
    store.put_transaction(&transaction_id, sample_transaction(TransactionState::Setup));

    // The identity verifier rejected the buyer's authorization
    let transaction = sample_transaction(TransactionState::Setup);
    let result = FundManagementModule::deposit_funds(&mut store, &transaction, false, true);
    assert_eq!(result, Err(EscrowError::Unauthorized));

    // Nothing changed: the transaction still waits in Setup, nothing logged
    assert_eq!(
        store.transaction(&transaction_id).unwrap().state,
        TransactionState::Setup
    );
    assert!(AuditModule::get_audit_logs(&store, &transaction_id).is_empty());
}

#[test]
fn test_deposit_funds_insufficient() {
    let mut store = EscrowStore::new();
    let transaction_id = "txn1".to_string();
    store.put_transaction(&transaction_id, sample_transaction(TransactionState::Setup));

    // The transfer primitive failed: the buyer lacks funds
    let transaction = sample_transaction(TransactionState::Setup);
    let result = FundManagementModule::deposit_funds(&mut store, &transaction, true, false);
    assert_eq!(result, Err(EscrowError::InsufficientFunds));
    assert_eq!(
        store.transaction(&transaction_id).unwrap().state,
        TransactionState::Setup
    );
}

#[test]
fn test_deposit_funds_transaction_not_found() {
    let mut store = EscrowStore::new();
    let transaction = sample_transaction(TransactionState::Setup);
    let result = FundManagementModule::deposit_funds(&mut store, &transaction, true, true);
    assert_eq!(result, Err(EscrowError::TransactionNotFound));
}

#[test]
fn test_release_funds_transaction_not_found() {
    let mut store = EscrowStore::new();
    let transaction = sample_transaction(TransactionState::Deposit);
    let result = FundManagementModule::release_funds(&mut store, &transaction);
    assert_eq!(result, Err(EscrowError::TransactionNotFound));
}

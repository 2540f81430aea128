use escrow_service::agreement::AgreementModule;
use escrow_service::store::EscrowStore;
use escrow_service::types::TransactionState;

#[test]
fn test_create_agreement_success() {
    let mut store = EscrowStore::new();

    let buyer = "buyer".to_string();
    let seller = "seller".to_string();
    let transaction_id = "txn1".to_string();
    let amount = 1000i128;
    let deadline = 10000u64;

    // Create a new agreement
    AgreementModule::create_agreement(
        &mut store,
        transaction_id.clone(),
        buyer.clone(),
        seller.clone(),
        amount,
        deadline,
        "token".to_string(),
        0,
    )
    .unwrap();

    // Retrieve the agreement and verify its details
    let agreement = AgreementModule::get_agreement(&store, &transaction_id).unwrap();
    assert_eq!(agreement.buyer, buyer);
    assert_eq!(agreement.seller, seller);
    assert_eq!(agreement.amount, amount);
    assert_eq!(agreement.deadline, deadline);
    assert_eq!(agreement.state, TransactionState::Setup);
}

#[test]
#[should_panic(expected = "AgreementAlreadyExists")]
fn test_create_agreement_already_exists() {
    let mut store = EscrowStore::new();

    let buyer = "buyer".to_string();
    let seller = "seller".to_string();
    let transaction_id = "txn1".to_string();
    let amount = 1000i128;
    let deadline = 10000u64;

    // Create a new agreement
    AgreementModule::create_agreement(
        &mut store,
        transaction_id.clone(),
        buyer.clone(),
        seller.clone(),
        amount,
        deadline,
        "token".to_string(),
        0,
    )
    .unwrap();

    // Attempt to create the same agreement again, which should panic
    AgreementModule::create_agreement(
        &mut store,
        transaction_id,
        buyer,
        seller,
        amount,
        deadline,
        "token".to_string(),
        0,
    )
    .unwrap();
}

#[test]
#[should_panic(expected = "AgreementNotFound")]
fn test_get_agreement_not_found() {
    let store = EscrowStore::new();

    let transaction_id = "nonexistent_txn".to_string();

    // Attempt to retrieve a non-existent agreement, which should panic
    AgreementModule::get_agreement(&store, &transaction_id).unwrap();
}

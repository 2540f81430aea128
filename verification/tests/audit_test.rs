use escrow_service::audit::AuditModule;
use escrow_service::store::EscrowStore;

#[test]
fn test_record_action() {
    let mut store = EscrowStore::new();

    let transaction_id = "txn1".to_string();
    let action = "create_agreement";

    // Record an action
    AuditModule::record_action(&mut store, &transaction_id, action);

    // Retrieve the audit logs and verify the action is recorded
    let logs = AuditModule::get_audit_logs(&store, &transaction_id);
    assert_eq!(logs.len(), 1);
    assert_eq!(
        logs[0].render(),
        format!("Transaction: {}, Action: {}", transaction_id, action)
    );
}

#[test]
fn test_get_audit_logs_empty() {
    let store = EscrowStore::new();

    // Retrieve the audit logs when no actions have been recorded
    let logs = AuditModule::get_audit_logs(&store, &"txn1".to_string());
    assert!(logs.is_empty());
}

#[test]
fn test_multiple_actions() {
    let mut store = EscrowStore::new();

    let transaction_id1 = "txn1".to_string();
    let transaction_id2 = "txn2".to_string();
    let action1 = "create_agreement";
    let action2 = "deposit_funds";

    // Record multiple actions
    AuditModule::record_action(&mut store, &transaction_id1, action1);
    AuditModule::record_action(&mut store, &transaction_id2, action2);

    // Retrieve the audit logs and verify both actions are recorded, each
    // under its own transaction identifier
    let logs1 = AuditModule::get_audit_logs(&store, &transaction_id1);
    assert_eq!(logs1.len(), 1);
    assert_eq!(
        logs1[0].render(),
        format!("Transaction: {}, Action: {}", transaction_id1, action1)
    );
    let logs2 = AuditModule::get_audit_logs(&store, &transaction_id2);
    assert_eq!(logs2.len(), 1);
    assert_eq!(
        logs2[0].render(),
        format!("Transaction: {}, Action: {}", transaction_id2, action2)
    );
}

#[test]
fn test_record_action_keeps_order() {
    let mut store = EscrowStore::new();
    let transaction_id = "txn1".to_string();

    AuditModule::record_action(&mut store, &transaction_id, "first");
    AuditModule::record_action(&mut store, &transaction_id, "second");
    AuditModule::record_action(&mut store, &transaction_id, "third");

    let logs = AuditModule::get_audit_logs(&store, &transaction_id);
    assert_eq!(logs.len(), 3);
    assert_eq!(logs[0].action, "first");
    assert_eq!(logs[1].action, "second");
    assert_eq!(logs[2].action, "third");
    assert_eq!(logs[0].transaction_id, "txn1");
    assert_eq!(logs[1].transaction_id, "txn1");
    assert_eq!(logs[2].transaction_id, "txn1");
}

use payment_contract::records::{PaymentError, PaymentEvent, Status};
use payment_contract::store::PaymentContract;

fn sample_store() -> PaymentContract {
    let mut store = PaymentContract::new();
    store.initialize("GBYQZJFO6ECYUDG4UX2FWSZ47UGDCYZ3INDXLX4GQXHJ3A6WKSPT7CYS");
    store
}

#[test]
fn test_create_then_get_returns_inputs_active() {
    let mut store = sample_store();
    store
        .record_payment("RKG2H4I9J0", 10000000000, 7700000, "254712345678", 1704067200, "ws_CO_123456789")
        .unwrap();

    let record = store.get_payment("ws_CO_123456789").unwrap();
    assert_eq!(record.mpesa_receipt, "RKG2H4I9J0");
    assert_eq!(record.amount_kes, 10000000000);
    assert_eq!(record.amount_usdc, 7700000);
    assert_eq!(record.phone_number, "254712345678");
    assert_eq!(record.timestamp, 1704067200);
    assert_eq!(record.checkout_request_id, "ws_CO_123456789");
    assert_eq!(record.status, Status::Active);
}

#[test]
fn test_duplicate_leaves_store_unchanged() {
    let mut store = sample_store();
    store
        .record_payment("RKG2H4I9J0", 10000000000, 7700000, "254712345678", 1704067200, "ws_CO_123456789")
        .unwrap();

    let second = store.record_payment("OTHER9X8Y7", 5, 6, "254700000000", 9, "ws_CO_123456789");
    assert!(matches!(second, Err(PaymentError::DuplicateError)));

    let record = store.get_payment("ws_CO_123456789").unwrap();
    assert_eq!(record.mpesa_receipt, "RKG2H4I9J0");
    assert_eq!(record.amount_kes, 10000000000);
    assert_eq!(record.status, Status::Active);
    assert_eq!(store.get_payment_count(), 1);
}

#[test]
fn test_count_after_creates_and_failures() {
    let mut store = sample_store();
    store.record_payment("R1", 1, 1, "p1", 1, "id_1").unwrap();
    store.record_payment("R2", 2, 2, "p2", 2, "id_2").unwrap();

    // Failed attempts of every kind leave the counter alone.
    assert!(store.record_payment("R3", 3, 3, "p3", 3, "id_1").is_err());
    assert!(store.record_payment("", 3, 3, "p3", 3, "id_3").is_err());
    assert!(store.record_payment("R3", 0, 3, "p3", 3, "id_3").is_err());
    assert!(store.update_payment_status("id_1", "cancelled").is_err());
    assert!(store.update_payment_status("id_9", "failed").is_err());

    store.record_payment("R3", 3, 3, "p3", 3, "id_3").unwrap();
    assert_eq!(store.get_payment_count(), 3);
}

#[test]
fn test_update_status_invalid_value() {
    let mut store = sample_store();
    store.record_payment("R1", 1, 1, "p1", 1, "id_1").unwrap();

    let result = store.update_payment_status("id_1", "cancelled");
    assert!(matches!(result, Err(PaymentError::ValidationError)));

    // The stored record is unchanged.
    let record = store.get_payment("id_1").unwrap();
    assert_eq!(record.status, Status::Active);

    // Capitalization matters: only the exact three names are legal.
    let result = store.update_payment_status("id_1", "Active");
    assert!(matches!(result, Err(PaymentError::ValidationError)));
}

#[test]
fn test_update_status_missing_key() {
    let mut store = sample_store();
    let result = store.update_payment_status("ws_CO_missing", "failed");
    assert!(matches!(result, Err(PaymentError::NotFoundError)));
}

#[test]
fn test_update_status_reaches_every_value() {
    let mut store = sample_store();
    store.record_payment("R1", 1, 1, "p1", 1, "id_1").unwrap();

    // The status set is flat: any value is reachable from any other.
    for (name, status) in [
        ("pending", Status::Pending),
        ("active", Status::Active),
        ("failed", Status::Failed),
        ("active", Status::Active),
    ] {
        let updated = store.update_payment_status("id_1", name).unwrap();
        assert_eq!(updated.status, status);
        assert_eq!(store.get_payment("id_1").unwrap().status, status);
    }
}

#[test]
fn test_summary_missing_key_empty() {
    let store = sample_store();
    let summary = store.get_payment_summary("ws_CO_missing");
    assert!(summary.is_empty());
}

#[test]
fn test_summary_values() {
    let mut store = sample_store();
    store
        .record_payment("RKG2H4I9J0", 10000000000, 7700000, "254712345678", 1704067200, "ws_CO_123456789")
        .unwrap();

    let summary = store.get_payment_summary("ws_CO_123456789");
    let expected = [
        ("receipt", "RKG2H4I9J0"),
        ("kes", "10000000000"),
        ("usdc", "7700000"),
        ("phone", "254712345678"),
        ("status", "active"),
        ("timestamp", "1704067200"),
    ];
    assert_eq!(summary.len(), expected.len());
    for (pair, (key, value)) in summary.iter().zip(expected.iter()) {
        assert_eq!(pair.0, *key);
        assert_eq!(pair.1, *value);
    }
}

#[test]
fn test_contract_info() {
    let mut store = PaymentContract::new();

    // Before initialization there is no admin entry, only the count.
    let info = store.get_contract_info();
    assert_eq!(info.len(), 1);
    assert_eq!(info[0].0, "count");
    assert_eq!(info[0].1, "0");

    store.initialize("GBYQZJFO6ECYUDG4UX2FWSZ47UGDCYZ3INDXLX4GQXHJ3A6WKSPT7CYS");
    store.record_payment("R1", 1, 1, "p1", 1, "id_1").unwrap();

    let info = store.get_contract_info();
    assert_eq!(info.len(), 2);
    assert_eq!(info[0].0, "admin");
    assert_eq!(
        info[0].1,
        "GBYQZJFO6ECYUDG4UX2FWSZ47UGDCYZ3INDXLX4GQXHJ3A6WKSPT7CYS"
    );
    assert_eq!(info[1].0, "count");
    assert_eq!(info[1].1, "1");
}

#[test]
fn test_reinitialize_resets_counter_keeps_ledger() {
    let mut store = sample_store();
    store.record_payment("R1", 1, 1, "p1", 1, "id_1").unwrap();
    assert_eq!(store.get_payment_count(), 1);

    store.initialize("GB_SECOND_ADMIN");
    assert_eq!(store.get_payment_count(), 0);
    // The ledger is append-only: the record survives re-initialization.
    assert!(store.verify_payment_exists("id_1"));
}

#[test]
fn test_events_log() {
    let mut store = sample_store();
    store
        .record_payment("RKG2H4I9J0", 10000000000, 7700000, "254712345678", 1704067200, "ws_CO_123456789")
        .unwrap();
    store.update_payment_status("ws_CO_123456789", "failed").unwrap();
    // Failed operations emit nothing.
    assert!(store.record_payment("", 1, 1, "p", 1, "id").is_err());
    assert!(store.update_payment_status("missing", "failed").is_err());

    let log = store.event_log();
    assert_eq!(log.len(), 2);
    match &log[0] {
        PaymentEvent::Recorded { checkout_request_id, mpesa_receipt, amount_kes, amount_usdc } => {
            assert_eq!(checkout_request_id, "ws_CO_123456789");
            assert_eq!(mpesa_receipt, "RKG2H4I9J0");
            assert_eq!(*amount_kes, 10000000000);
            assert_eq!(*amount_usdc, 7700000);
        }
        other => panic!("unexpected first event: {:?}", other),
    }
    match &log[1] {
        PaymentEvent::Updated { checkout_request_id, new_status } => {
            assert_eq!(checkout_request_id, "ws_CO_123456789");
            assert_eq!(*new_status, Status::Failed);
        }
        other => panic!("unexpected second event: {:?}", other),
    }
}

#[test]
fn test_payments_by_status() {
    let mut store = sample_store();
    store.record_payment("R1", 1, 1, "p1", 1, "id_1").unwrap();
    store.record_payment("R2", 2, 2, "p2", 2, "id_2").unwrap();
    store.record_payment("R3", 3, 3, "p3", 3, "id_3").unwrap();
    store.update_payment_status("id_2", "failed").unwrap();

    let active = store.get_payments_by_status(Status::Active);
    assert_eq!(active.len(), 2);
    assert_eq!(active[0].checkout_request_id, "id_1");
    assert_eq!(active[1].checkout_request_id, "id_3");

    let failed = store.get_payments_by_status(Status::Failed);
    assert_eq!(failed.len(), 1);
    assert_eq!(failed[0].checkout_request_id, "id_2");

    let pending = store.get_payments_by_status(Status::Pending);
    assert!(pending.is_empty());
}

#[test]
fn test_end_to_end() {
    let mut store = sample_store();
    store
        .record_payment("RKG2H4I9J0", 10000000000, 7700000, "254712345678", 1704067200, "ws_CO_123456789")
        .unwrap();
    assert_eq!(store.get_payment_count(), 1);

    let record = store.get_payment("ws_CO_123456789").unwrap();
    assert_eq!(record.status, Status::Active);
    assert_eq!(store.get_payment_count(), 1);

    let updated = store.update_payment_status("ws_CO_123456789", "failed").unwrap();
    assert_eq!(updated.status, Status::Failed);
    assert_eq!(store.get_payment_count(), 1);

    let record = store.get_payment("ws_CO_123456789").unwrap();
    assert_eq!(record.status, Status::Failed);
    assert_eq!(store.get_payment_count(), 1);

    let second = store.record_payment(
        "RKG2H4I9J0",
        10000000000,
        7700000,
        "254712345678",
        1704067200,
        "ws_CO_123456789",
    );
    assert!(matches!(second, Err(PaymentError::DuplicateError)));
    assert_eq!(store.get_payment_count(), 1);
}

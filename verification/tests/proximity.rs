use fluxa::engine::BankingEngine;
use fluxa::proximity::{
    bluetooth_connect, bluetooth_payload, bluetooth_scan_devices, bluetooth_send_transaction,
    bluetooth_sent_message, nfc_payload, nfc_prepared_message, nfc_receive_transaction,
    nfc_signature_text, prepare_bluetooth_transaction, prepare_nfc_transaction,
    proximity_refusal, received_placeholder, BluetoothDevice, P2PTransaction, ProximityPayload,
};

fn text(value: &str) -> String {
    value.to_string()
}

fn opened() -> BankingEngine {
    BankingEngine::open(text("wallet-1"), text("t0"))
}

#[test]
fn proximity_amount_bounds_are_inclusive() {
    let engine = opened();
    let invalid = Some(text("Montant invalide (100 - 1M FCFA)"));
    assert_eq!(proximity_refusal(&engine, 0), invalid);
    assert_eq!(proximity_refusal(&engine, 99), invalid);
    assert_eq!(proximity_refusal(&engine, 100), None);
    assert_eq!(proximity_refusal(&engine, 15000), None);
    assert_eq!(proximity_refusal(&engine, 1_000_001), invalid);
    assert_eq!(proximity_refusal(&engine, u64::MAX), invalid);
}

#[test]
fn proximity_send_is_held_to_the_offline_balance() {
    let mut engine = opened();
    let short = Some(text("Solde offline insuffisant"));
    assert_eq!(proximity_refusal(&engine, 15001), short);
    assert_eq!(proximity_refusal(&engine, 1_000_000), short);
    engine.transfer_to_vault(25000).unwrap();
    assert_eq!(proximity_refusal(&engine, 40000), None);
    assert_eq!(proximity_refusal(&engine, 40001), short);
}

#[test]
fn nfc_signature_is_prefixed_digest() {
    assert_eq!(
        nfc_signature_text("wallet-1", "receiver-9", 5000),
        "sig_02dc9dc7d32d68cc4bbfb3602dd98ebb03554def96a3e78ded0ab50c6dbc3849"
    );
    assert_eq!(
        nfc_signature_text("wallet-1", "receiver-9", 5000),
        format!("sig_{}", fluxa::signing::sha256_hex("wallet-1receiver-95000"))
    );
}

#[test]
fn nfc_payload_with_given_id_is_exact() {
    let engine = opened();
    let payload = nfc_payload(&engine, text("receiver-9"), 5000, text("tx-1"), text("t1")).unwrap();
    assert_eq!(
        payload,
        ProximityPayload {
            tx_id: text("tx-1"),
            sender: text("wallet-1"),
            receiver: text("receiver-9"),
            amount: 5000,
            timestamp: text("t1"),
            signature: Some(text(
                "sig_02dc9dc7d32d68cc4bbfb3602dd98ebb03554def96a3e78ded0ab50c6dbc3849"
            )),
        }
    );
    assert_eq!(
        nfc_payload(&engine, text("receiver-9"), 99, text("tx-1"), text("t1")),
        Err(text("Montant invalide (100 - 1M FCFA)"))
    );
    assert_eq!(
        nfc_payload(&engine, text("receiver-9"), 15001, text("tx-1"), text("t1")),
        Err(text("Solde offline insuffisant"))
    );
}

#[test]
fn prepared_nfc_send_leaves_the_ledger_alone() {
    let engine = opened();
    let payload = prepare_nfc_transaction(&engine, text("receiver-9"), 5000).unwrap();
    assert_eq!(payload.tx_id.len(), 36);
    assert_eq!(payload.sender, "wallet-1");
    assert_eq!(payload.receiver, "receiver-9");
    assert_eq!(payload.amount, 5000);
    assert!(chrono::DateTime::parse_from_rfc3339(&payload.timestamp).is_ok());
    assert_eq!(payload.signature, Some(nfc_signature_text("wallet-1", "receiver-9", 5000)));
    assert_eq!(engine.get_wallet().offline_balance, 15000);
    assert!(engine.get_transactions().is_empty());
    assert_eq!(
        prepare_nfc_transaction(&engine, text("receiver-9"), 50),
        Err(text("Montant invalide (100 - 1M FCFA)"))
    );
}

#[test]
fn nfc_report_names_id_and_size() {
    assert_eq!(
        nfc_prepared_message("tx-1", 211),
        "NFC transaction prepared: tx-1 | Payload size: 211 bytes"
    );
    assert_eq!(
        nfc_prepared_message("", 0),
        "NFC transaction prepared:  | Payload size: 0 bytes"
    );
}

#[test]
fn bluetooth_payload_is_unsigned_and_addressed_to_the_device() {
    let engine = opened();
    let payload =
        bluetooth_payload(&engine, text("device_001"), 100, text("tx-1"), text("t1")).unwrap();
    assert_eq!(
        payload,
        ProximityPayload {
            tx_id: text("tx-1"),
            sender: text("wallet-1"),
            receiver: text("device_001"),
            amount: 100,
            timestamp: text("t1"),
            signature: None,
        }
    );
    assert_eq!(
        bluetooth_payload(&engine, text("device_001"), 1_000_001, text("tx-1"), text("t1")),
        Err(text("Montant invalide (100 - 1M FCFA)"))
    );
    let prepared = prepare_bluetooth_transaction(&engine, text("device_002"), 15000).unwrap();
    assert_eq!(prepared.receiver, "device_002");
    assert_eq!(prepared.signature, None);
    assert_eq!(prepared.tx_id.len(), 36);
    assert_eq!(
        prepare_bluetooth_transaction(&engine, text("device_002"), 15001),
        Err(text("Solde offline insuffisant"))
    );
}

#[test]
fn bluetooth_send_reports_the_id() {
    assert_eq!(bluetooth_sent_message("tx-1"), "BLE transaction sent: tx-1");
    let engine = opened();
    let out = bluetooth_send_transaction(&engine, text("device_001"), text("receiver-9"), 5000);
    assert!(out.success);
    assert_eq!(out.error, None);
    let message = out.data.unwrap();
    assert!(message.starts_with("BLE transaction sent: "));
    assert_eq!(message.len(), "BLE transaction sent: ".len() + 36);
    assert!(engine.get_transactions().is_empty());
    let out = bluetooth_send_transaction(&engine, text("device_001"), text("receiver-9"), 99);
    assert!(!out.success);
    assert_eq!(out.data, None);
    assert_eq!(out.error, Some(text("Montant invalide (100 - 1M FCFA)")));
    let out = bluetooth_send_transaction(&engine, text("device_001"), text("receiver-9"), 20000);
    assert_eq!(out.error, Some(text("Solde offline insuffisant")));
}

#[test]
fn received_placeholder_is_fixed() {
    assert_eq!(
        received_placeholder(text("id-1"), text("t1")),
        P2PTransaction {
            id: text("id-1"),
            sender_wallet_id: text("wallet_sender"),
            receiver_wallet_id: text("wallet_receiver"),
            amount: 5000,
            signature: text("sig_placeholder"),
            timestamp: text("t1"),
            status: text("pending"),
        }
    );
    let out = nfc_receive_transaction();
    assert!(out.success);
    let received = out.data.unwrap();
    assert_eq!(received.id.len(), 36);
    assert_eq!(received.amount, 5000);
    assert_eq!(received.status, "pending");
    assert_eq!(received.sender_wallet_id, "wallet_sender");
}

#[test]
fn scan_reports_two_devices() {
    let out = bluetooth_scan_devices();
    assert!(out.success);
    assert_eq!(
        out.data.unwrap(),
        vec![
            BluetoothDevice {
                id: text("device_001"),
                name: text("\u{1F4F1} T\u{e9}l\u{e9}phone d'Amenan"),
                rssi: -45,
            },
            BluetoothDevice {
                id: text("device_002"),
                name: text("\u{1F4F1} iPhone de Kofi"),
                rssi: -62,
            },
        ]
    );
}

#[test]
fn connect_always_succeeds() {
    let out = bluetooth_connect(text("device_001"));
    assert!(out.success);
    assert_eq!(out.data, Some(true));
    assert_eq!(out.error, None);
}

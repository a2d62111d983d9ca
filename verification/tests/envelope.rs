use fluxa::commands;
use fluxa::engine::BankingEngine;
use fluxa::records::KeyPair;
use fluxa::response::ApiResponse;

fn text(value: &str) -> String {
    value.to_string()
}

fn opened() -> BankingEngine {
    BankingEngine::open(text("wallet-1"), text("t0"))
}

#[test]
fn success_envelope_has_data_and_no_error() {
    let out = ApiResponse::success_at(7u64, text("t"));
    assert_eq!(
        out,
        ApiResponse { success: true, data: Some(7u64), error: None, timestamp: text("t") }
    );
}

#[test]
fn failure_envelope_has_error_and_no_data() {
    let out: ApiResponse<u64> = ApiResponse::failure_at(text("broken"), text("t"));
    assert_eq!(
        out,
        ApiResponse { success: false, data: None, error: Some(text("broken")), timestamp: text("t") }
    );
}

#[test]
fn envelope_of_result_follows_the_result() {
    let ok: ApiResponse<u64> = ApiResponse::from_result_at(Ok(3), text("t"));
    assert!(ok.success);
    assert_eq!(ok.data, Some(3));
    assert_eq!(ok.error, None);
    assert_eq!(ok.timestamp, "t");
    let err: ApiResponse<u64> = ApiResponse::from_result_at(Err(text("no")), text("t"));
    assert!(!err.success);
    assert_eq!(err.data, None);
    assert_eq!(err.error, Some(text("no")));
}

#[test]
fn envelope_reported_now_carries_a_timestamp() {
    let ok = ApiResponse::success(true);
    assert!(ok.success);
    assert_eq!(ok.data, Some(true));
    assert_eq!(ok.error, None);
    assert!(chrono::DateTime::parse_from_rfc3339(&ok.timestamp).is_ok());
    let err: ApiResponse<bool> = ApiResponse::failure(text("no"));
    assert!(!err.success);
    assert_eq!(err.data, None);
    assert_eq!(err.error, Some(text("no")));
    assert!(chrono::DateTime::parse_from_rfc3339(&err.timestamp).is_ok());
    let from: ApiResponse<bool> = ApiResponse::from_result(Err(text("later")));
    assert_eq!(from.error, Some(text("later")));
    assert!(!from.success);
}

#[test]
fn init_wallet_creates_keys_once() {
    let mut engine = opened();
    let first = commands::init_wallet(&mut engine);
    assert!(first.success);
    assert_eq!(first.data, Some(engine.get_wallet()));
    assert_eq!(first.error, None);
    let key = engine.get_public_key().unwrap();
    let second = commands::init_wallet(&mut engine);
    assert!(second.success);
    assert_eq!(engine.get_public_key().unwrap(), key);
}

#[test]
fn get_wallet_command_reports_the_wallet() {
    let engine = opened();
    let out = commands::get_wallet(&engine);
    assert!(out.success);
    assert_eq!(out.data, Some(engine.get_wallet()));
    assert_eq!(out.error, None);
}

#[test]
fn initialize_keys_command_reports_new_keys() {
    let mut engine = opened();
    let out = commands::initialize_keys(&mut engine);
    assert!(out.success);
    let keys = out.data.unwrap();
    assert_eq!(engine.get_public_key(), Ok(keys.public_key));
}

#[test]
fn get_public_key_command_fails_without_keys() {
    let mut engine = opened();
    let out = commands::get_public_key(&engine);
    assert!(!out.success);
    assert_eq!(out.data, None);
    assert_eq!(out.error, Some(text("Keys not initialized")));
    engine.initialize_keys_from("seed-1", text("t1"));
    let out = commands::get_public_key(&engine);
    assert!(out.success);
    assert_eq!(
        out.data,
        Some(text("5ea745dc9ab862dae823204248d640d806c98d4d58d2d3cd3026374ddb8e57cb"))
    );
}

#[test]
fn vault_commands_wrap_success_and_failure() {
    let mut engine = opened();
    let out = commands::transfer_to_vault(&mut engine, 5000);
    assert!(out.success);
    let wallet = out.data.unwrap();
    assert_eq!(wallet.online_balance, 20000);
    assert_eq!(wallet.offline_balance, 20000);
    let out = commands::transfer_to_vault(&mut engine, 20001);
    assert!(!out.success);
    assert_eq!(out.data, None);
    assert_eq!(out.error, Some(text("Insufficient online balance")));
    let out = commands::transfer_from_vault(&mut engine, 20000);
    assert!(out.success);
    assert_eq!(out.data.unwrap().online_balance, 40000);
    let out = commands::transfer_from_vault(&mut engine, 1);
    assert_eq!(out.error, Some(text("Insufficient vault balance")));
    let out = commands::transfer_from_vault(&mut engine, 0);
    assert_eq!(out.error, Some(text("Amount must be positive")));
}

#[test]
fn send_commands_wrap_success_and_failure() {
    let mut engine = opened();
    let out = commands::create_offline_transaction(&mut engine, text("r"), text("Shop"), 10);
    assert_eq!(out.error, Some(text("Keys not initialized")));
    assert!(!out.success);
    commands::init_wallet(&mut engine);
    let out = commands::create_offline_transaction(&mut engine, text("r"), text("Shop"), 10);
    assert!(out.success);
    let offline = out.data.unwrap();
    assert_eq!(offline.tx_type, "offline");
    assert_eq!(offline.status, "pending");
    let out = commands::create_online_transaction(&mut engine, text("r"), text("Shop"), 20);
    let online = out.data.unwrap();
    assert_eq!(online.tx_type, "online");
    let wallet = engine.get_wallet();
    assert_eq!(wallet.online_balance, 24980);
    assert_eq!(wallet.offline_balance, 14990);

    let out = commands::confirm_transaction(&mut engine, offline.id.clone());
    assert!(out.success);
    assert_eq!(out.data.unwrap().status, "confirmed");
    let out = commands::cancel_transaction(&mut engine, offline.id.clone());
    assert_eq!(out.error, Some(text("Cannot cancel confirmed transaction")));
    let out = commands::cancel_transaction(&mut engine, online.id.clone());
    assert!(out.success);
    assert_eq!(out.data.unwrap().online_balance, 25000);
    let out = commands::confirm_transaction(&mut engine, online.id.clone());
    assert_eq!(out.error, Some(text("Cannot confirm cancelled transaction")));
    let out = commands::confirm_transaction(&mut engine, text("missing"));
    assert_eq!(out.error, Some(text("Transaction not found")));

    let out = commands::get_transactions(&engine);
    assert!(out.success);
    assert_eq!(out.data.unwrap(), engine.get_transactions());
    let out = commands::get_wallet_stats(&engine);
    let stats = out.data.unwrap();
    assert_eq!(stats.total_transactions, 2);
    assert_eq!(stats.confirmed_transactions, 1);
    assert_eq!(stats.total_volume, 10);
    assert_eq!(stats.wallet_id, "wallet-1");
    assert_eq!(stats.created_at, "t0");
}

#[test]
fn verify_command_checks_the_stamp() {
    let mut engine = opened();
    let out = commands::verify_tx_signature(&engine, text("data"), text("sig"));
    assert!(!out.success);
    assert_eq!(out.error, Some(text("Keys not initialized")));
    engine.initialize_keys_from("seed-1", text("t1"));
    let stamp = fluxa::signing::stamp_text(
        "data",
        "0eb026731d9ea3f870511f8c18daeb814eaa2c9e276082b204f2a962212fb5bd",
    );
    let out = commands::verify_tx_signature(&engine, text("data"), stamp.clone());
    assert_eq!(out.data, Some(true));
    let out = commands::verify_tx_signature(&engine, text("datum"), stamp);
    assert!(out.success);
    assert_eq!(out.data, Some(false));
}

//! Sends over a proximity channel (near-field tap, short-range radio): the
//! checks against the ledger and the payload handed to the transport. A
//! prepared payload reserves nothing: the journal and the balances stay as
//! they are until a send is recorded through the engine.

use crate::boundary::{is_uuid_v4_text, random_uuid, utc_now_rfc3339};
use crate::engine::BankingEngine;
use crate::model::{LedgerView, STATUS_PENDING};
use crate::response::ApiResponse;
use crate::signing::{sha256_hex, text_digest};
use crate::text::{decimal, push_decimal};
use vstd::prelude::*;
use vstd::string::*;

verus! {

/// The smallest amount a proximity send may carry.
pub const PROXIMITY_MIN_AMOUNT: u64 = 100;

/// The largest amount a proximity send may carry.
pub const PROXIMITY_MAX_AMOUNT: u64 = 1_000_000;

pub const ERR_PROXIMITY_AMOUNT: &'static str = "Montant invalide (100 - 1M FCFA)";

pub const ERR_PROXIMITY_FUNDS: &'static str = "Solde offline insuffisant";

pub const NFC_SIGNATURE_PREFIX: &'static str = "sig_";

pub const NFC_PREPARED_PREFIX: &'static str = "NFC transaction prepared: ";

pub const NFC_PREPARED_SIZE: &'static str = " | Payload size: ";

pub const NFC_PREPARED_SUFFIX: &'static str = " bytes";

pub const BLE_SENT_PREFIX: &'static str = "BLE transaction sent: ";

/// A transaction as it travels between two devices.
#[derive(Debug, PartialEq, Eq)]
pub struct P2PTransaction {
    pub id: String,
    pub sender_wallet_id: String,
    pub receiver_wallet_id: String,
    pub amount: u64,
    pub signature: String,
    pub timestamp: String,
    pub status: String,
}

/// A device seen in a scan.
#[derive(Debug, PartialEq, Eq)]
pub struct BluetoothDevice {
    pub id: String,
    pub name: String,
    pub rssi: i32,
}

/// What is handed to the transport for one send. A near-field payload is
/// signed; a radio payload is not.
#[derive(Debug, PartialEq, Eq)]
pub struct ProximityPayload {
    pub tx_id: String,
    pub sender: String,
    pub receiver: String,
    pub amount: u64,
    pub timestamp: String,
    pub signature: Option<String>,
}

/// Why a proximity send of `amount` is refused, if it is: the amount is out
/// of bounds, or above the offline balance.
pub open spec fn proximity_rejection(s: LedgerView, amount: int) -> Option<Seq<char>> {
    if amount < PROXIMITY_MIN_AMOUNT || amount > PROXIMITY_MAX_AMOUNT {
        Some(ERR_PROXIMITY_AMOUNT@)
    } else if amount > s.wallet.offline_balance {
        Some(ERR_PROXIMITY_FUNDS@)
    } else {
        None
    }
}

/// The signature on a near-field payload: `sig_` and the digest of sender,
/// receiver and decimal amount written one after the other.
pub open spec fn nfc_signature(sender: Seq<char>, receiver: Seq<char>, amount: int) -> Seq<char> {
    NFC_SIGNATURE_PREFIX@ + text_digest(sender + receiver + decimal(amount as nat))
}

/// The report of a prepared near-field send.
pub open spec fn nfc_prepared_text(tx_id: Seq<char>, payload_size: nat) -> Seq<char> {
    NFC_PREPARED_PREFIX@ + tx_id + NFC_PREPARED_SIZE@ + decimal(payload_size) + NFC_PREPARED_SUFFIX@
}

impl ProximityPayload {
    /// A signed near-field payload from the ledger's wallet to `receiver`.
    pub open spec fn is_nfc_for(self, s: LedgerView, receiver: Seq<char>, amount: int) -> bool {
        &&& self.sender@ == s.wallet.id
        &&& self.receiver@ == receiver
        &&& self.amount == amount
        &&& self.signature matches Some(signature)
        &&& signature@ == nfc_signature(s.wallet.id, receiver, amount)
    }

    /// An unsigned radio payload from the ledger's wallet to `device`.
    pub open spec fn is_bluetooth_for(self, s: LedgerView, device: Seq<char>, amount: int) -> bool {
        &&& self.sender@ == s.wallet.id
        &&& self.receiver@ == device
        &&& self.amount == amount
        &&& self.signature is None
    }
}

/// Judges a proximity send of `amount` against the bounds and the offline
/// balance.
pub fn proximity_refusal(engine: &BankingEngine, amount: u64) -> (out: Option<String>)
    ensures
        match proximity_rejection(engine@, amount as int) {
            Some(reason) => out matches Some(text) && text@ == reason,
            None => out is None,
        },
{
    if amount < PROXIMITY_MIN_AMOUNT || amount > PROXIMITY_MAX_AMOUNT {
        Some(ERR_PROXIMITY_AMOUNT.to_owned())
    } else if amount > engine.get_wallet().offline_balance {
        Some(ERR_PROXIMITY_FUNDS.to_owned())
    } else {
        None
    }
}

/// Signs a near-field payload.
pub fn nfc_signature_text(sender: &str, receiver: &str, amount: u64) -> (out: String)
    ensures
        out@ == nfc_signature(sender@, receiver@, amount as int),
{
    let mut joined = String::new();
    joined.append(sender);
    joined.append(receiver);
    push_decimal(&mut joined, amount);
    assert(joined@ =~= sender@ + receiver@ + decimal(amount as nat));
    let digest = sha256_hex(joined.as_str());
    let mut out = String::new();
    out.append(NFC_SIGNATURE_PREFIX);
    out.append(digest.as_str());
    assert(out@ =~= NFC_SIGNATURE_PREFIX@ + digest@);
    out
}

/// The near-field payload for a send of `amount` to `receiver_id` under the
/// given id and time, or the reason for refusing it.
pub fn nfc_payload(
    engine: &BankingEngine,
    receiver_id: String,
    amount: u64,
    tx_id: String,
    timestamp: String,
) -> (out: Result<ProximityPayload, String>)
    ensures
        match proximity_rejection(engine@, amount as int) {
            Some(reason) => out matches Err(text) && text@ == reason,
            None => out matches Ok(payload) && payload.tx_id == tx_id && payload.timestamp
                == timestamp && payload.is_nfc_for(engine@, receiver_id@, amount as int),
        },
{
    match proximity_refusal(engine, amount) {
        Some(reason) => Err(reason),
        None => {
            let sender = engine.get_wallet().id;
            let signature = nfc_signature_text(sender.as_str(), receiver_id.as_str(), amount);
            Ok(
                ProximityPayload {
                    tx_id,
                    sender,
                    receiver: receiver_id,
                    amount,
                    timestamp,
                    signature: Some(signature),
                },
            )
        },
    }
}

/// Prepares a near-field send: judges it, and if it is acceptable draws a
/// fresh id and the current time and builds the signed payload.
pub fn prepare_nfc_transaction(engine: &BankingEngine, receiver_id: String, amount: u64) -> (out:
    Result<ProximityPayload, String>)
    ensures
        match proximity_rejection(engine@, amount as int) {
            Some(reason) => out matches Err(text) && text@ == reason,
            None => out matches Ok(payload) && is_uuid_v4_text(payload.tx_id@)
                && payload.is_nfc_for(engine@, receiver_id@, amount as int),
        },
{
    match proximity_refusal(engine, amount) {
        Some(reason) => Err(reason),
        None => {
            let tx_id = random_uuid();
            let timestamp = utc_now_rfc3339();
            nfc_payload(engine, receiver_id, amount, tx_id, timestamp)
        },
    }
}

/// The report of a prepared near-field send: the id and the size in bytes
/// of the payload as it was serialised for the tag.
pub fn nfc_prepared_message(tx_id: &str, payload_size: usize) -> (out: String)
    ensures
        out@ == nfc_prepared_text(tx_id@, payload_size as nat),
{
    let mut out = String::new();
    out.append(NFC_PREPARED_PREFIX);
    out.append(tx_id);
    out.append(NFC_PREPARED_SIZE);
    push_decimal(&mut out, payload_size as u64);
    out.append(NFC_PREPARED_SUFFIX);
    out
}

/// The radio payload for a send of `amount` to the device `device_id` under
/// the given id and time, or the reason for refusing it.
pub fn bluetooth_payload(
    engine: &BankingEngine,
    device_id: String,
    amount: u64,
    tx_id: String,
    timestamp: String,
) -> (out: Result<ProximityPayload, String>)
    ensures
        match proximity_rejection(engine@, amount as int) {
            Some(reason) => out matches Err(text) && text@ == reason,
            None => out matches Ok(payload) && payload.tx_id == tx_id && payload.timestamp
                == timestamp && payload.is_bluetooth_for(engine@, device_id@, amount as int),
        },
{
    match proximity_refusal(engine, amount) {
        Some(reason) => Err(reason),
        None => Ok(
            ProximityPayload {
                tx_id,
                sender: engine.get_wallet().id,
                receiver: device_id,
                amount,
                timestamp,
                signature: None,
            },
        ),
    }
}

/// Prepares a radio send: judges it, and if it is acceptable draws a fresh
/// id and the current time and builds the payload.
pub fn prepare_bluetooth_transaction(engine: &BankingEngine, device_id: String, amount: u64)
    -> (out:
    Result<ProximityPayload, String>)
    ensures
        match proximity_rejection(engine@, amount as int) {
            Some(reason) => out matches Err(text) && text@ == reason,
            None => out matches Ok(payload) && is_uuid_v4_text(payload.tx_id@)
                && payload.is_bluetooth_for(engine@, device_id@, amount as int),
        },
{
    match proximity_refusal(engine, amount) {
        Some(reason) => Err(reason),
        None => {
            let tx_id = random_uuid();
            let timestamp = utc_now_rfc3339();
            bluetooth_payload(engine, device_id, amount, tx_id, timestamp)
        },
    }
}

/// The report of a radio send.
pub fn bluetooth_sent_message(tx_id: &str) -> (out: String)
    ensures
        out@ == BLE_SENT_PREFIX@ + tx_id@,
{
    let mut out = String::new();
    out.append(BLE_SENT_PREFIX);
    out.append(tx_id);
    out
}

/// Sends `amount` to a device over the radio channel. The receiver's wallet
/// id is not used: the payload is addressed to the device. Reports the id of
/// the send, or why it was refused; the ledger is not touched either way.
pub fn bluetooth_send_transaction(
    engine: &BankingEngine,
    device_id: String,
    _receiver_id: String,
    amount: u64,
) -> (out: ApiResponse<String>)
    ensures
        out.wf(),
        match proximity_rejection(engine@, amount as int) {
            Some(reason) => out.failed_with(reason),
            None => out.success && exists|tx_id: Seq<char>|
                is_uuid_v4_text(tx_id) && out.data->0@ == BLE_SENT_PREFIX@ + tx_id,
        },
{
    match prepare_bluetooth_transaction(engine, device_id, amount) {
        Err(reason) => ApiResponse::failure(reason),
        Ok(payload) => ApiResponse::success(bluetooth_sent_message(payload.tx_id.as_str())),
    }
}

/// The transaction that a read of a near-field tag yields while no tag
/// reader is attached: fixed parties and amount, pending, under the given id
/// and time.
pub fn received_placeholder(id: String, timestamp: String) -> (out: P2PTransaction)
    ensures
        out.id == id,
        out.timestamp == timestamp,
        out.sender_wallet_id@ == "wallet_sender"@,
        out.receiver_wallet_id@ == "wallet_receiver"@,
        out.amount == 5000,
        out.signature@ == "sig_placeholder"@,
        out.status@ == STATUS_PENDING@,
{
    P2PTransaction {
        id,
        sender_wallet_id: "wallet_sender".to_owned(),
        receiver_wallet_id: "wallet_receiver".to_owned(),
        amount: 5000,
        signature: "sig_placeholder".to_owned(),
        timestamp,
        status: STATUS_PENDING.to_owned(),
    }
}

/// Reads a transaction from a near-field tag. No reader is attached, so the
/// placeholder comes back under a fresh id.
pub fn nfc_receive_transaction() -> (out: ApiResponse<P2PTransaction>)
    ensures
        out.wf(),
        out.success,
        is_uuid_v4_text(out.data->0.id@),
        out.data->0.sender_wallet_id@ == "wallet_sender"@,
        out.data->0.receiver_wallet_id@ == "wallet_receiver"@,
        out.data->0.amount == 5000,
        out.data->0.signature@ == "sig_placeholder"@,
        out.data->0.status@ == STATUS_PENDING@,
{
    let id = random_uuid();
    let timestamp = utc_now_rfc3339();
    ApiResponse::success(received_placeholder(id, timestamp))
}

/// The two devices that a scan reports while no radio is attached.
pub fn simulated_devices() -> (out: Vec<BluetoothDevice>)
    ensures
        out.len() == 2,
        out[0].id@ == "device_001"@,
        out[0].name@ == "\u{1F4F1} T\u{e9}l\u{e9}phone d'Amenan"@,
        out[0].rssi == -45,
        out[1].id@ == "device_002"@,
        out[1].name@ == "\u{1F4F1} iPhone de Kofi"@,
        out[1].rssi == -62,
{
    let mut out: Vec<BluetoothDevice> = Vec::new();
    out.push(
        BluetoothDevice {
            id: "device_001".to_owned(),
            name: "\u{1F4F1} T\u{e9}l\u{e9}phone d'Amenan".to_owned(),
            rssi: -45,
        },
    );
    out.push(
        BluetoothDevice {
            id: "device_002".to_owned(),
            name: "\u{1F4F1} iPhone de Kofi".to_owned(),
            rssi: -62,
        },
    );
    out
}

/// Scans for nearby devices.
pub fn bluetooth_scan_devices() -> (out: ApiResponse<Vec<BluetoothDevice>>)
    ensures
        out.wf(),
        out.success,
        out.data->0.len() == 2,
        out.data->0[0].id@ == "device_001"@,
        out.data->0[1].id@ == "device_002"@,
{
    ApiResponse::success(simulated_devices())
}

/// Connects to a device. No radio is attached, so every connection
/// succeeds.
pub fn bluetooth_connect(_device_id: String) -> (out: ApiResponse<bool>)
    ensures
        out.wf(),
        out.succeeded_with(true),
{
    ApiResponse::success(true)
}

} // verus!

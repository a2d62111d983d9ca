//! One function per operation, for a caller that holds the engine and wants
//! every outcome in the same envelope. A shell that owns the engine behind a
//! lock calls these while it holds the lock, so each runs to the end before
//! the next begins.

use crate::boundary::is_uuid_v4_text;
use crate::engine::BankingEngine;
use crate::model::{
    confirmed_volume, find_entry, of_status, Side, ERR_KEYS_NOT_INITIALIZED, STATUS_CONFIRMED,
};
use crate::records::{views_of, KeyPair, Transaction, Wallet, WalletStats};
use crate::response::ApiResponse;
use crate::signing::stamp;
use vstd::prelude::*;

verus! {

/// Makes sure the wallet has keys, creating them if there are none, and
/// reports the wallet. Keys that exist are kept.
pub fn init_wallet(engine: &mut BankingEngine) -> (out: ApiResponse<Wallet>)
    requires
        old(engine).wf(),
    ensures
        final(engine).wf(),
        out.wf(),
        out.success,
        out.data->0@ == final(engine)@.wallet,
        match old(engine)@.keypair {
            Some(_) => final(engine)@ == old(engine)@,
            None => final(engine)@.keypair matches Some(keys) && keys.seeded() && final(engine)@
                == old(engine)@.with_keys(keys),
        },
{
    if !engine.has_keys() {
        let _ = engine.initialize_keys();
    }
    ApiResponse::success(engine.get_wallet())
}

/// Reports the wallet.
pub fn get_wallet(engine: &BankingEngine) -> (out: ApiResponse<Wallet>)
    ensures
        out.wf(),
        out.success,
        out.data->0@ == engine@.wallet,
{
    ApiResponse::success(engine.get_wallet())
}

/// Replaces the key pair with a new one and reports it.
pub fn initialize_keys(engine: &mut BankingEngine) -> (out: ApiResponse<KeyPair>)
    requires
        old(engine).wf(),
    ensures
        final(engine).wf(),
        out.wf(),
        out.success,
        out.data->0@.seeded(),
        final(engine)@ == old(engine)@.with_keys(out.data->0@),
{
    ApiResponse::from_result(engine.initialize_keys())
}

/// Reports the public key, or fails with `Keys not initialized`.
pub fn get_public_key(engine: &BankingEngine) -> (out: ApiResponse<String>)
    ensures
        out.wf(),
        match engine@.keypair {
            Some(keys) => out.success && out.data->0@ == keys.public_key,
            None => out.failed_with(ERR_KEYS_NOT_INITIALIZED@),
        },
{
    ApiResponse::from_result(engine.get_public_key())
}

/// Moves `amount` into the vault and reports the wallet, or reports why not.
pub fn transfer_to_vault(engine: &mut BankingEngine, amount: u64) -> (out: ApiResponse<Wallet>)
    requires
        old(engine).wf(),
    ensures
        final(engine).wf(),
        out.wf(),
        match old(engine)@.vault_rejection(Side::Online, amount as int) {
            Some(reason) => out.failed_with(reason) && final(engine)@ == old(engine)@,
            None => out.success && out.data->0@ == final(engine)@.wallet
                && final(engine)@ == old(engine)@.vault_transfer(
                Side::Online,
                amount as int,
                final(engine)@.journal.last().id,
                final(engine)@.wallet.last_updated,
                final(engine)@.journal.last().timestamp,
            ),
        },
{
    ApiResponse::from_result(engine.transfer_to_vault(amount))
}

/// Moves `amount` out of the vault and reports the wallet, or reports why
/// not.
pub fn transfer_from_vault(engine: &mut BankingEngine, amount: u64) -> (out: ApiResponse<Wallet>)
    requires
        old(engine).wf(),
    ensures
        final(engine).wf(),
        out.wf(),
        match old(engine)@.vault_rejection(Side::Offline, amount as int) {
            Some(reason) => out.failed_with(reason) && final(engine)@ == old(engine)@,
            None => out.success && out.data->0@ == final(engine)@.wallet
                && final(engine)@ == old(engine)@.vault_transfer(
                Side::Offline,
                amount as int,
                final(engine)@.journal.last().id,
                final(engine)@.wallet.last_updated,
                final(engine)@.journal.last().timestamp,
            ),
        },
{
    ApiResponse::from_result(engine.transfer_from_vault(amount))
}

/// Creates a pending send out of the offline balance and reports its entry,
/// or reports why not.
pub fn create_offline_transaction(
    engine: &mut BankingEngine,
    to_wallet_id: String,
    merchant_name: String,
    amount: u64,
) -> (out: ApiResponse<Transaction>)
    requires
        old(engine).wf(),
    ensures
        final(engine).wf(),
        out.wf(),
        match old(engine)@.send_rejection(Side::Offline, amount as int) {
            Some(reason) => out.failed_with(reason) && final(engine)@ == old(engine)@,
            None => out.success && out.data->0@ == final(engine)@.journal.last() && final(engine)@
                == old(engine)@.send(
                Side::Offline,
                to_wallet_id@,
                merchant_name@,
                amount as int,
                out.data->0@.id,
                out.data->0@.timestamp,
                final(engine)@.wallet.last_updated,
            ) && is_uuid_v4_text(out.data->0@.id),
        },
{
    ApiResponse::from_result(engine.create_offline_transaction(to_wallet_id, merchant_name, amount))
}

/// Creates a pending send out of the online balance and reports its entry,
/// or reports why not.
pub fn create_online_transaction(
    engine: &mut BankingEngine,
    to_wallet_id: String,
    merchant_name: String,
    amount: u64,
) -> (out: ApiResponse<Transaction>)
    requires
        old(engine).wf(),
    ensures
        final(engine).wf(),
        out.wf(),
        match old(engine)@.send_rejection(Side::Online, amount as int) {
            Some(reason) => out.failed_with(reason) && final(engine)@ == old(engine)@,
            None => out.success && out.data->0@ == final(engine)@.journal.last() && final(engine)@
                == old(engine)@.send(
                Side::Online,
                to_wallet_id@,
                merchant_name@,
                amount as int,
                out.data->0@.id,
                out.data->0@.timestamp,
                final(engine)@.wallet.last_updated,
            ) && is_uuid_v4_text(out.data->0@.id),
        },
{
    ApiResponse::from_result(engine.create_online_transaction(to_wallet_id, merchant_name, amount))
}

/// Confirms an entry and reports it, or reports why not.
pub fn confirm_transaction(engine: &mut BankingEngine, tx_id: String) -> (out: ApiResponse<
    Transaction,
>)
    requires
        old(engine).wf(),
    ensures
        final(engine).wf(),
        out.wf(),
        match old(engine)@.confirm_rejection(tx_id@) {
            Some(reason) => out.failed_with(reason) && final(engine)@ == old(engine)@,
            None => out.success && final(engine)@ == old(engine)@.confirm(tx_id@) && out.data->0@
                == final(engine)@.journal[find_entry(old(engine)@.journal, tx_id@)->0],
        },
{
    ApiResponse::from_result(engine.confirm_transaction(tx_id))
}

/// Cancels an entry and reports the wallet, or reports why not.
pub fn cancel_transaction(engine: &mut BankingEngine, tx_id: String) -> (out: ApiResponse<Wallet>)
    requires
        old(engine).wf(),
    ensures
        final(engine).wf(),
        out.wf(),
        match old(engine)@.cancel_rejection(tx_id@) {
            Some(reason) => out.failed_with(reason) && final(engine)@ == old(engine)@,
            None => out.success && out.data->0@ == final(engine)@.wallet
                && final(engine)@ == old(engine)@.cancel(tx_id@, final(engine)@.wallet.last_updated),
        },
{
    ApiResponse::from_result(engine.cancel_transaction(tx_id))
}

/// Reports the journal.
pub fn get_transactions(engine: &BankingEngine) -> (out: ApiResponse<Vec<Transaction>>)
    ensures
        out.wf(),
        out.success,
        views_of(out.data->0@) == engine@.journal,
{
    ApiResponse::success(engine.get_transactions())
}

/// Reports the journal's counts.
pub fn get_wallet_stats(engine: &BankingEngine) -> (out: ApiResponse<WalletStats>)
    ensures
        out.wf(),
        out.success,
        out.data->0.total_transactions == engine@.journal.len(),
        out.data->0.confirmed_transactions == of_status(engine@.journal, STATUS_CONFIRMED@).len(),
        out.data->0.total_volume == confirmed_volume(engine@.journal),
        out.data->0.wallet_id@ == engine@.wallet.id,
        out.data->0.created_at@ == engine@.wallet.created_at,
{
    ApiResponse::success(engine.get_stats())
}

/// Reports whether `signature` is the engine's stamp of `data`, or fails
/// with `Keys not initialized`.
pub fn verify_tx_signature(engine: &BankingEngine, data: String, signature: String) -> (out:
    ApiResponse<bool>)
    ensures
        out.wf(),
        match engine@.keypair {
            Some(keys) => out.success && out.data == Some(
                signature@ == stamp(data@, keys.private_key),
            ),
            None => out.failed_with(ERR_KEYS_NOT_INITIALIZED@),
        },
{
    ApiResponse::from_result(engine.verify_signature(data.as_str(), signature.as_str()))
}

} // verus!

//! A single-user wallet ledger: an online and an offline balance, a journal
//! of transactions with a pending / confirmed / cancelled lifecycle, and a
//! keyed integrity stamp on every send.
//!
//! The stamp is symmetric: it is made and checked with the same private key,
//! so it proves integrity to the key's holder and nothing to anyone else.
//! Nothing is persisted: the state lives as long as the engine value does.

pub mod boundary;
pub mod commands;
pub mod engine;
pub mod laws;
pub mod lemmas;
pub mod model;
pub mod proximity;
pub mod records;
pub mod response;
pub mod signing;
pub mod text;

pub use engine::BankingEngine;
pub use model::Side;
pub use proximity::{BluetoothDevice, P2PTransaction, ProximityPayload};
pub use records::{KeyPair, Transaction, Wallet, WalletStats};
pub use response::ApiResponse;

//! The records the ledger keeps: wallet, key pair and transaction, each with
//! the mathematical value that contracts speak of.

use vstd::prelude::*;

verus! {

/// What a `Wallet` holds, as text and unbounded integers.
pub struct WalletView {
    pub id: Seq<char>,
    pub online_balance: int,
    pub offline_balance: int,
    pub total_balance: int,
    pub created_at: Seq<char>,
    pub last_updated: Seq<char>,
}

/// What a `KeyPair` holds.
pub struct KeyPairView {
    pub public_key: Seq<char>,
    pub private_key: Seq<char>,
    pub created_at: Seq<char>,
}

/// What a `Transaction` holds.
pub struct TransactionView {
    pub id: Seq<char>,
    pub from_wallet_id: Seq<char>,
    pub to_wallet_id: Seq<char>,
    pub merchant_name: Seq<char>,
    pub amount: int,
    pub timestamp: Seq<char>,
    pub signature: Seq<char>,
    pub tx_type: Seq<char>,
    pub status: Seq<char>,
}

/// Wallet state: funds split into an online and an offline (vault) balance,
/// in the smallest currency unit.
#[derive(Debug, PartialEq, Eq)]
pub struct Wallet {
    pub id: String,
    pub online_balance: u64,
    pub offline_balance: u64,
    pub total_balance: u64,
    pub created_at: String,
    pub last_updated: String,
}

/// The secret that stamps transactions, and the public value derived from it.
#[derive(Debug, PartialEq, Eq)]
pub struct KeyPair {
    pub public_key: String,
    pub private_key: String,
    pub created_at: String,
}

/// One journal entry.
#[derive(Debug, PartialEq, Eq)]
pub struct Transaction {
    pub id: String,
    pub from_wallet_id: String,
    pub to_wallet_id: String,
    pub merchant_name: String,
    pub amount: u64,
    pub timestamp: String,
    pub signature: String,
    pub tx_type: String,
    pub status: String,
}

/// Counts over the journal, with the wallet they belong to.
#[derive(Debug, PartialEq, Eq)]
pub struct WalletStats {
    pub total_transactions: usize,
    pub confirmed_transactions: usize,
    pub total_volume: u128,
    pub wallet_id: String,
    pub created_at: String,
}

impl View for Wallet {
    type V = WalletView;

    open spec fn view(&self) -> WalletView {
        WalletView {
            id: self.id@,
            online_balance: self.online_balance as int,
            offline_balance: self.offline_balance as int,
            total_balance: self.total_balance as int,
            created_at: self.created_at@,
            last_updated: self.last_updated@,
        }
    }
}

impl View for KeyPair {
    type V = KeyPairView;

    open spec fn view(&self) -> KeyPairView {
        KeyPairView {
            public_key: self.public_key@,
            private_key: self.private_key@,
            created_at: self.created_at@,
        }
    }
}

impl View for Transaction {
    type V = TransactionView;

    open spec fn view(&self) -> TransactionView {
        TransactionView {
            id: self.id@,
            from_wallet_id: self.from_wallet_id@,
            to_wallet_id: self.to_wallet_id@,
            merchant_name: self.merchant_name@,
            amount: self.amount as int,
            timestamp: self.timestamp@,
            signature: self.signature@,
            tx_type: self.tx_type@,
            status: self.status@,
        }
    }
}

impl Clone for Wallet {
    fn clone(&self) -> (out: Self)
        ensures
            out == *self,
    {
        Wallet {
            id: self.id.clone(),
            online_balance: self.online_balance,
            offline_balance: self.offline_balance,
            total_balance: self.total_balance,
            created_at: self.created_at.clone(),
            last_updated: self.last_updated.clone(),
        }
    }
}

impl Clone for KeyPair {
    fn clone(&self) -> (out: Self)
        ensures
            out == *self,
    {
        KeyPair {
            public_key: self.public_key.clone(),
            private_key: self.private_key.clone(),
            created_at: self.created_at.clone(),
        }
    }
}

impl Clone for Transaction {
    fn clone(&self) -> (out: Self)
        ensures
            out == *self,
    {
        Transaction {
            id: self.id.clone(),
            from_wallet_id: self.from_wallet_id.clone(),
            to_wallet_id: self.to_wallet_id.clone(),
            merchant_name: self.merchant_name.clone(),
            amount: self.amount,
            timestamp: self.timestamp.clone(),
            signature: self.signature.clone(),
            tx_type: self.tx_type.clone(),
            status: self.status.clone(),
        }
    }
}

/// The views of a run of transactions, in order.
pub open spec fn views_of(entries: Seq<Transaction>) -> Seq<TransactionView> {
    entries.map_values(|t: Transaction| t@)
}

/// A copy of `entries`, element for element.
pub fn clone_entries(entries: &Vec<Transaction>) -> (out: Vec<Transaction>)
    ensures
        out@ == entries@,
{
    let mut out: Vec<Transaction> = Vec::new();
    let mut i: usize = 0;
    while i < entries.len()
        invariant
            i <= entries.len(),
            out@ == entries@.take(i as int),
        decreases entries.len() - i,
    {
        out.push(entries[i].clone());
        i = i + 1;
    }
    out
}

} // verus!

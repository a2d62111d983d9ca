//! The ledger engine: the wallet, the optional key pair and the journal,
//! owned together and changed only through the operations below.

use crate::boundary::{is_uuid_v4_text, random_uuid, utc_now_rfc3339};
use crate::laws::{
    lemma_balances_bounded, lemma_cancel_wf, lemma_confirm_wf, lemma_funds_bounded,
    lemma_opening_wf, lemma_send_wf, lemma_vault_transfer_wf, lemma_with_keys_wf,
};
use crate::lemmas::{
    lemma_confirmed_volume_push, lemma_filter_push, lemma_find_entry_first, lemma_find_entry_none,
    lemma_labels_distinct,
};
use crate::model::{
    confirmed_volume, find_entry, funds_rejection, has_status, has_type, is_first_match, of_status,
    of_type, LedgerView, Request, Side, ERR_CANCEL_CANCELLED, ERR_CANCEL_CONFIRMED,
    ERR_CONFIRM_CANCELLED, ERR_INSUFFICIENT_OFFLINE, ERR_INSUFFICIENT_ONLINE,
    ERR_INSUFFICIENT_VAULT, ERR_INVALID_AMOUNT, ERR_KEYS_NOT_INITIALIZED, ERR_NOT_FOUND,
    MERCHANT_VAULT_TRANSFER, MERCHANT_VAULT_WITHDRAWAL, OPENING_OFFLINE, OPENING_ONLINE,
    STATUS_CANCELLED, STATUS_CONFIRMED, STATUS_PENDING, TX_OFFLINE, TX_ONLINE, TX_TRANSFER,
};
use crate::records::{
    clone_entries, views_of, KeyPair, KeyPairView, Transaction, Wallet, WalletStats,
};
use crate::signing::{canonical_text, stamp, stamp_text};
use crate::text::same_text;
use vstd::prelude::*;

verus! {

/// The wallet, its keys and its journal.
pub struct BankingEngine {
    wallet: Wallet,
    keypair: Option<KeyPair>,
    transactions: Vec<Transaction>,
}

impl View for BankingEngine {
    type V = LedgerView;

    closed spec fn view(&self) -> LedgerView {
        LedgerView {
            wallet: self.wallet@,
            keypair: match self.keypair {
                Some(keys) => Some(keys@),
                None => None,
            },
            journal: views_of(self.transactions@),
        }
    }
}

impl KeyPairView {
    /// The pair derives from some seed in the shape of a version-4 UUID.
    pub open spec fn seeded(self) -> bool {
        exists|seed: Seq<char>|
            is_uuid_v4_text(seed) && self == #[trigger] KeyPairView::from_seed(
                seed,
                self.created_at,
            )
    }
}

fn vault_shortfall_text(from: Side) -> (out: &'static str)
    ensures
        out@ == from.vault_shortfall(),
{
    match from {
        Side::Online => ERR_INSUFFICIENT_ONLINE,
        Side::Offline => ERR_INSUFFICIENT_VAULT,
    }
}

fn vault_merchant_text(from: Side) -> (out: &'static str)
    ensures
        out@ == from.vault_merchant(),
{
    match from {
        Side::Online => MERCHANT_VAULT_TRANSFER,
        Side::Offline => MERCHANT_VAULT_WITHDRAWAL,
    }
}

fn send_shortfall_text(from: Side) -> (out: &'static str)
    ensures
        out@ == from.send_shortfall(),
{
    match from {
        Side::Online => ERR_INSUFFICIENT_ONLINE,
        Side::Offline => ERR_INSUFFICIENT_OFFLINE,
    }
}

fn send_type_text(from: Side) -> (out: &'static str)
    ensures
        out@ == from.send_type(),
{
    match from {
        Side::Online => TX_ONLINE,
        Side::Offline => TX_OFFLINE,
    }
}

/// Judges a request for `amount` out of `available`: the reason for refusing
/// it, or `None`.
pub fn funds_refusal(amount: u64, available: u64, shortfall: &str) -> (out: Option<String>)
    ensures
        match funds_rejection(amount as int, available as int, shortfall@) {
            Some(reason) => out matches Some(text) && text@ == reason,
            None => out is None,
        },
{
    if amount == 0 {
        Some(ERR_INVALID_AMOUNT.to_owned())
    } else if amount > available {
        Some(shortfall.to_owned())
    } else {
        None
    }
}

impl BankingEngine {
    /// The engine's invariant: that of the ledger it holds.
    pub open spec fn wf(&self) -> bool {
        self@.wf()
    }

    /// Opens a wallet with a random id and the opening balances, stamped
    /// with the current time. There are no keys yet.
    pub fn new() -> (out: Self)
        ensures
            out.wf(),
            out@ == LedgerView::opening(out@.wallet.id, out@.wallet.created_at),
            is_uuid_v4_text(out@.wallet.id),
    {
        let wallet_id = random_uuid();
        let now = utc_now_rfc3339();
        Self::open(wallet_id, now)
    }

    /// Opens a wallet with the given id and creation time.
    pub fn open(wallet_id: String, now: String) -> (out: Self)
        ensures
            out.wf(),
            out@ == LedgerView::opening(wallet_id@, now@),
    {
        proof {
            lemma_opening_wf(wallet_id@, now@);
        }
        let out = BankingEngine {
            wallet: Wallet {
                id: wallet_id,
                online_balance: OPENING_ONLINE,
                offline_balance: OPENING_OFFLINE,
                total_balance: OPENING_ONLINE + OPENING_OFFLINE,
                created_at: now.clone(),
                last_updated: now,
            },
            keypair: None,
            transactions: Vec::new(),
        };
        assert(out@.journal =~= Seq::empty());
        out
    }

    /// Makes a new key pair from a random seed and puts it in place of any
    /// earlier one. Never fails.
    pub fn initialize_keys(&mut self) -> (out: Result<KeyPair, String>)
        requires
            old(self).wf(),
        ensures
            final(self).wf(),
            out matches Ok(keys) && keys@.seeded() && final(self)@ == old(self)@.with_keys(keys@),
    {
        let seed = random_uuid();
        let created_at = utc_now_rfc3339();
        let keys = self.initialize_keys_from(seed.as_str(), created_at);
        assert(keys@ == KeyPairView::from_seed(seed@, keys@.created_at));
        Ok(keys)
    }

    /// Derives a key pair from `seed`, puts it in place of any earlier one
    /// and returns a copy.
    pub fn initialize_keys_from(&mut self, seed: &str, created_at: String) -> (out: KeyPair)
        requires
            old(self).wf(),
        ensures
            final(self).wf(),
            out@ == KeyPairView::from_seed(seed@, created_at@),
            final(self)@ == old(self)@.with_keys(out@),
            final(self)@ == old(self)@.step(
                (Request::InitializeKeys { seed: seed@, created_at: created_at@ }),
            ),
    {
        let keys = KeyPair::from_seed(seed, created_at);
        proof {
            lemma_with_keys_wf(self@, keys@);
        }
        let out = keys.clone();
        self.keypair = Some(keys);
        out
    }

    /// Whether a key pair is in place.
    pub fn has_keys(&self) -> (out: bool)
        ensures
            out == (self@.keypair is Some),
    {
        self.keypair.is_some()
    }

    /// A copy of the wallet.
    pub fn get_wallet(&self) -> (out: Wallet)
        ensures
            out@ == self@.wallet,
    {
        self.wallet.clone()
    }

    /// The public key, or `Keys not initialized`.
    pub fn get_public_key(&self) -> (out: Result<String, String>)
        ensures
            match self@.keypair {
                Some(keys) => out matches Ok(key) && key@ == keys.public_key,
                None => out matches Err(reason) && reason@ == ERR_KEYS_NOT_INITIALIZED@,
            },
    {
        match &self.keypair {
            Some(keys) => Ok(keys.public_key.clone()),
            None => Err(ERR_KEYS_NOT_INITIALIZED.to_owned()),
        }
    }

    fn balance(&self, side: Side) -> (out: u64)
        ensures
            out == self@.wallet.balance(side),
    {
        match side {
            Side::Online => self.wallet.online_balance,
            Side::Offline => self.wallet.offline_balance,
        }
    }

    /// Judges a vault transfer of `amount` out of `from` without making it.
    pub fn vault_refusal(&self, from: Side, amount: u64) -> (out: Option<String>)
        ensures
            match self@.vault_rejection(from, amount as int) {
                Some(reason) => out matches Some(text) && text@ == reason,
                None => out is None,
            },
    {
        funds_refusal(amount, self.balance(from), vault_shortfall_text(from))
    }

    /// Makes a vault transfer that was judged acceptable.
    fn apply_vault_transfer(
        &mut self,
        from: Side,
        amount: u64,
        tx_id: String,
        updated: String,
        timestamp: String,
    ) -> (out: Wallet)
        requires
            old(self).wf(),
            old(self)@.vault_rejection(from, amount as int) is None,
        ensures
            final(self).wf(),
            out@ == final(self)@.wallet,
            final(self)@ == old(self)@.vault_transfer(
                from,
                amount as int,
                tx_id@,
                updated@,
                timestamp@,
            ),
    {
        proof {
            lemma_funds_bounded(self@);
            lemma_vault_transfer_wf(self@, from, amount as int, tx_id@, updated@, timestamp@);
        }
        match from {
            Side::Online => {
                self.wallet.online_balance = self.wallet.online_balance - amount;
                self.wallet.offline_balance = self.wallet.offline_balance + amount;
            },
            Side::Offline => {
                self.wallet.offline_balance = self.wallet.offline_balance - amount;
                self.wallet.online_balance = self.wallet.online_balance + amount;
            },
        }
        self.wallet.total_balance = self.wallet.online_balance + self.wallet.offline_balance;
        self.wallet.last_updated = updated;
        let entry = Transaction {
            id: tx_id,
            from_wallet_id: self.wallet.id.clone(),
            to_wallet_id: self.wallet.id.clone(),
            merchant_name: vault_merchant_text(from).to_owned(),
            amount,
            timestamp,
            signature: String::new(),
            tx_type: TX_TRANSFER.to_owned(),
            status: STATUS_CONFIRMED.to_owned(),
        };
        self.transactions.push(entry);
        assert(self@.journal =~= old(self)@.journal.push(entry@));
        self.wallet.clone()
    }

    /// Moves `amount` from the balance on `from` to the other and records a
    /// confirmed `transfer` entry with the given id and times, or refuses
    /// and changes nothing.
    pub fn vault_transfer(
        &mut self,
        from: Side,
        amount: u64,
        tx_id: String,
        updated: String,
        timestamp: String,
    ) -> (out: Result<Wallet, String>)
        requires
            old(self).wf(),
        ensures
            final(self).wf(),
            match old(self)@.vault_rejection(from, amount as int) {
                Some(reason) => out matches Err(text) && text@ == reason
                    && final(self)@ == old(self)@,
                None => out matches Ok(wallet) && wallet@ == final(self)@.wallet && final(self)@
                    == old(self)@.vault_transfer(from, amount as int, tx_id@, updated@, timestamp@),
            },
            final(self)@ == old(self)@.step(
                (Request::VaultTransfer {
                    from,
                    amount: amount as int,
                    tx_id: tx_id@,
                    updated: updated@,
                    timestamp: timestamp@,
                }),
            ),
    {
        match self.vault_refusal(from, amount) {
            Some(reason) => Err(reason),
            None => Ok(self.apply_vault_transfer(from, amount, tx_id, updated, timestamp)),
        }
    }

    /// Judges a vault transfer, and if it is acceptable draws a fresh id and
    /// the current time and makes it.
    fn vault_transfer_now(&mut self, from: Side, amount: u64) -> (out: Result<Wallet, String>)
        requires
            old(self).wf(),
        ensures
            final(self).wf(),
            match old(self)@.vault_rejection(from, amount as int) {
                Some(reason) => out matches Err(text) && text@ == reason
                    && final(self)@ == old(self)@,
                None => out matches Ok(wallet) && wallet@ == final(self)@.wallet && final(self)@
                    == old(self)@.vault_transfer(
                    from,
                    amount as int,
                    final(self)@.journal.last().id,
                    final(self)@.wallet.last_updated,
                    final(self)@.journal.last().timestamp,
                ) && is_uuid_v4_text(final(self)@.journal.last().id),
            },
    {
        match self.vault_refusal(from, amount) {
            Some(reason) => Err(reason),
            None => {
                let updated = utc_now_rfc3339();
                let tx_id = random_uuid();
                let timestamp = utc_now_rfc3339();
                Ok(self.apply_vault_transfer(from, amount, tx_id, updated, timestamp))
            },
        }
    }

    /// Moves `amount` from the online balance into the vault. A zero amount
    /// is refused with `Amount must be positive`, one above the online
    /// balance with `Insufficient online balance`; a refusal changes nothing.
    /// Otherwise the balances change, `last_updated` is set to the current
    /// time, and a confirmed, unsigned `transfer` entry with a random id is
    /// appended.
    pub fn transfer_to_vault(&mut self, amount: u64) -> (out: Result<Wallet, String>)
        requires
            old(self).wf(),
        ensures
            final(self).wf(),
            match old(self)@.vault_rejection(Side::Online, amount as int) {
                Some(reason) => out matches Err(text) && text@ == reason
                    && final(self)@ == old(self)@,
                None => out matches Ok(wallet) && wallet@ == final(self)@.wallet && final(self)@
                    == old(self)@.vault_transfer(
                    Side::Online,
                    amount as int,
                    final(self)@.journal.last().id,
                    final(self)@.wallet.last_updated,
                    final(self)@.journal.last().timestamp,
                ) && is_uuid_v4_text(final(self)@.journal.last().id),
            },
    {
        self.vault_transfer_now(Side::Online, amount)
    }

    /// Moves `amount` from the vault to the online balance. A zero amount is
    /// refused with `Amount must be positive`, one above the offline balance
    /// with `Insufficient vault balance`; a refusal changes nothing.
    /// Otherwise as `transfer_to_vault`, in the other direction.
    pub fn transfer_from_vault(&mut self, amount: u64) -> (out: Result<Wallet, String>)
        requires
            old(self).wf(),
        ensures
            final(self).wf(),
            match old(self)@.vault_rejection(Side::Offline, amount as int) {
                Some(reason) => out matches Err(text) && text@ == reason
                    && final(self)@ == old(self)@,
                None => out matches Ok(wallet) && wallet@ == final(self)@.wallet && final(self)@
                    == old(self)@.vault_transfer(
                    Side::Offline,
                    amount as int,
                    final(self)@.journal.last().id,
                    final(self)@.wallet.last_updated,
                    final(self)@.journal.last().timestamp,
                ) && is_uuid_v4_text(final(self)@.journal.last().id),
            },
    {
        self.vault_transfer_now(Side::Offline, amount)
    }

    /// Stamps `data` with the private key of `keypair`. Never fails.
    pub fn sign_data(&self, data: &str, keypair: &KeyPair) -> (out: Result<String, String>)
        ensures
            out matches Ok(signature) && signature@ == stamp(data@, keypair@.private_key),
    {
        Ok(stamp_text(data, keypair.private_key.as_str()))
    }

    /// Whether `signature` is the stamp of `data` under the engine's own
    /// private key, or `Keys not initialized`.
    pub fn verify_signature(&self, data: &str, signature: &str) -> (out: Result<bool, String>)
        ensures
            match self@.keypair {
                Some(keys) => out == Ok::<bool, String>(
                    signature@ == stamp(data@, keys.private_key),
                ),
                None => out matches Err(reason) && reason@ == ERR_KEYS_NOT_INITIALIZED@,
            },
    {
        match &self.keypair {
            Some(keys) => {
                let expected = stamp_text(data, keys.private_key.as_str());
                Ok(same_text(&expected, signature))
            },
            None => Err(ERR_KEYS_NOT_INITIALIZED.to_owned()),
        }
    }

    /// Judges a send of `amount` out of `from` without making it.
    pub fn send_refusal(&self, from: Side, amount: u64) -> (out: Option<String>)
        ensures
            match self@.send_rejection(from, amount as int) {
                Some(reason) => out matches Some(text) && text@ == reason,
                None => out is None,
            },
    {
        match funds_refusal(amount, self.balance(from), send_shortfall_text(from)) {
            Some(reason) => Some(reason),
            None => match &self.keypair {
                Some(_) => None,
                None => Some(ERR_KEYS_NOT_INITIALIZED.to_owned()),
            },
        }
    }

    /// Makes a send that was judged acceptable.
    fn apply_send(
        &mut self,
        from: Side,
        to_wallet_id: String,
        merchant_name: String,
        amount: u64,
        tx_id: String,
        timestamp: String,
        updated: String,
    ) -> (out: Result<Transaction, String>)
        requires
            old(self).wf(),
            old(self)@.send_rejection(from, amount as int) is None,
        ensures
            final(self).wf(),
            out matches Ok(entry) && entry@ == final(self)@.journal.last()
                && final(self)@ == old(self)@.send(
                from,
                to_wallet_id@,
                merchant_name@,
                amount as int,
                tx_id@,
                timestamp@,
                updated@,
            ),
    {
        proof {
            lemma_funds_bounded(self@);
            lemma_send_wf(
                self@,
                from,
                to_wallet_id@,
                merchant_name@,
                amount as int,
                tx_id@,
                timestamp@,
                updated@,
            );
        }
        let signature = match &self.keypair {
            Some(keys) => {
                let data = canonical_text(
                    tx_id.as_str(),
                    self.wallet.id.as_str(),
                    to_wallet_id.as_str(),
                    amount,
                    timestamp.as_str(),
                );
                match self.sign_data(data.as_str(), keys) {
                    Ok(signature) => signature,
                    Err(reason) => {
                        return Err(reason);
                    },
                }
            },
            None => {
                return Err(ERR_KEYS_NOT_INITIALIZED.to_owned());
            },
        };
        match from {
            Side::Online => {
                self.wallet.online_balance = self.wallet.online_balance - amount;
            },
            Side::Offline => {
                self.wallet.offline_balance = self.wallet.offline_balance - amount;
            },
        }
        self.wallet.total_balance = self.wallet.online_balance + self.wallet.offline_balance;
        self.wallet.last_updated = updated;
        let entry = Transaction {
            id: tx_id,
            from_wallet_id: self.wallet.id.clone(),
            to_wallet_id,
            merchant_name,
            amount,
            timestamp,
            signature,
            tx_type: send_type_text(from).to_owned(),
            status: STATUS_PENDING.to_owned(),
        };
        self.transactions.push(entry.clone());
        assert(self@.journal =~= old(self)@.journal.push(entry@));
        Ok(entry)
    }

    /// Records a send of `amount` out of the balance on `from`, with the
    /// given id and times, or refuses and changes nothing. An accepted send
    /// takes the amount off the balance at once and appends a pending entry
    /// stamped with the private key.
    pub fn send(
        &mut self,
        from: Side,
        to_wallet_id: String,
        merchant_name: String,
        amount: u64,
        tx_id: String,
        timestamp: String,
        updated: String,
    ) -> (out: Result<Transaction, String>)
        requires
            old(self).wf(),
        ensures
            final(self).wf(),
            match old(self)@.send_rejection(from, amount as int) {
                Some(reason) => out matches Err(text) && text@ == reason
                    && final(self)@ == old(self)@,
                None => out matches Ok(entry) && entry@ == final(self)@.journal.last()
                    && final(self)@ == old(self)@.send(
                    from,
                    to_wallet_id@,
                    merchant_name@,
                    amount as int,
                    tx_id@,
                    timestamp@,
                    updated@,
                ),
            },
            final(self)@ == old(self)@.step(
                (Request::Send {
                    from,
                    receiver: to_wallet_id@,
                    merchant: merchant_name@,
                    amount: amount as int,
                    tx_id: tx_id@,
                    timestamp: timestamp@,
                    updated: updated@,
                }),
            ),
    {
        match self.send_refusal(from, amount) {
            Some(reason) => Err(reason),
            None => self.apply_send(
                from,
                to_wallet_id,
                merchant_name,
                amount,
                tx_id,
                timestamp,
                updated,
            ),
        }
    }

    /// Judges a send, and if it is acceptable draws a fresh id and the
    /// current time and records it.
    fn send_now(
        &mut self,
        from: Side,
        to_wallet_id: String,
        merchant_name: String,
        amount: u64,
    ) -> (out: Result<Transaction, String>)
        requires
            old(self).wf(),
        ensures
            final(self).wf(),
            match old(self)@.send_rejection(from, amount as int) {
                Some(reason) => out matches Err(text) && text@ == reason
                    && final(self)@ == old(self)@,
                None => out matches Ok(entry) && entry@ == final(self)@.journal.last()
                    && final(self)@ == old(self)@.send(
                    from,
                    to_wallet_id@,
                    merchant_name@,
                    amount as int,
                    entry@.id,
                    entry@.timestamp,
                    final(self)@.wallet.last_updated,
                ) && is_uuid_v4_text(entry@.id),
            },
    {
        match self.send_refusal(from, amount) {
            Some(reason) => Err(reason),
            None => {
                let tx_id = random_uuid();
                let timestamp = utc_now_rfc3339();
                let updated = utc_now_rfc3339();
                self.apply_send(
                    from,
                    to_wallet_id,
                    merchant_name,
                    amount,
                    tx_id,
                    timestamp,
                    updated,
                )
            },
        }
    }

    /// Creates a pending send out of the offline balance. Refused, with
    /// nothing changed, for a zero amount (`Amount must be positive`), an
    /// amount above the offline balance (`Insufficient offline balance`) or
    /// missing keys (`Keys not initialized`), judged in this order.
    pub fn create_offline_transaction(
        &mut self,
        to_wallet_id: String,
        merchant_name: String,
        amount: u64,
    ) -> (out: Result<Transaction, String>)
        requires
            old(self).wf(),
        ensures
            final(self).wf(),
            match old(self)@.send_rejection(Side::Offline, amount as int) {
                Some(reason) => out matches Err(text) && text@ == reason
                    && final(self)@ == old(self)@,
                None => out matches Ok(entry) && entry@ == final(self)@.journal.last()
                    && final(self)@ == old(self)@.send(
                    Side::Offline,
                    to_wallet_id@,
                    merchant_name@,
                    amount as int,
                    entry@.id,
                    entry@.timestamp,
                    final(self)@.wallet.last_updated,
                ) && is_uuid_v4_text(entry@.id),
            },
    {
        self.send_now(Side::Offline, to_wallet_id, merchant_name, amount)
    }

    /// Creates a pending send out of the online balance. Refused, with
    /// nothing changed, for a zero amount (`Amount must be positive`), an
    /// amount above the online balance (`Insufficient online balance`) or
    /// missing keys (`Keys not initialized`), judged in this order.
    pub fn create_online_transaction(
        &mut self,
        to_wallet_id: String,
        merchant_name: String,
        amount: u64,
    ) -> (out: Result<Transaction, String>)
        requires
            old(self).wf(),
        ensures
            final(self).wf(),
            match old(self)@.send_rejection(Side::Online, amount as int) {
                Some(reason) => out matches Err(text) && text@ == reason
                    && final(self)@ == old(self)@,
                None => out matches Ok(entry) && entry@ == final(self)@.journal.last()
                    && final(self)@ == old(self)@.send(
                    Side::Online,
                    to_wallet_id@,
                    merchant_name@,
                    amount as int,
                    entry@.id,
                    entry@.timestamp,
                    final(self)@.wallet.last_updated,
                ) && is_uuid_v4_text(entry@.id),
            },
    {
        self.send_now(Side::Online, to_wallet_id, merchant_name, amount)
    }

    /// The position of the first entry with this id.
    fn locate(&self, tx_id: &String) -> (out: Option<usize>)
        ensures
            match out {
                Some(i) => i < self.transactions.len() && find_entry(self@.journal, tx_id@)
                    == Some(i as int),
                None => find_entry(self@.journal, tx_id@) is None,
            },
    {
        let mut i: usize = 0;
        while i < self.transactions.len()
            invariant
                i <= self.transactions.len(),
                forall|k: int| 0 <= k < i ==> (#[trigger] self@.journal[k]).id != tx_id@,
            decreases self.transactions.len() - i,
        {
            if self.transactions[i].id == *tx_id {
                proof {
                    assert(self@.journal[i as int].id == tx_id@);
                    assert(is_first_match(self@.journal, tx_id@, i as int));
                    lemma_find_entry_first(self@.journal, tx_id@, i as int);
                }
                return Some(i);
            }
            i = i + 1;
        }
        proof {
            lemma_find_entry_none(self@.journal, tx_id@);
        }
        None
    }

    /// Confirms the first entry with this id and returns a copy of it.
    /// Refused, with nothing changed, where no entry has the id
    /// (`Transaction not found`) or the entry is cancelled (`Cannot confirm
    /// cancelled transaction`). Balances are never touched: the amount left
    /// the wallet when the entry was created.
    pub fn confirm_transaction(&mut self, tx_id: String) -> (out: Result<Transaction, String>)
        requires
            old(self).wf(),
        ensures
            final(self).wf(),
            match old(self)@.confirm_rejection(tx_id@) {
                Some(reason) => out matches Err(text) && text@ == reason
                    && final(self)@ == old(self)@,
                None => out matches Ok(entry) && final(self)@ == old(self)@.confirm(tx_id@)
                    && entry@ == final(self)@.journal[find_entry(old(self)@.journal, tx_id@)->0],
            },
            final(self)@ == old(self)@.step((Request::Confirm { tx_id: tx_id@ })),
    {
        match self.locate(&tx_id) {
            None => Err(ERR_NOT_FOUND.to_owned()),
            Some(i) => {
                if same_text(&self.transactions[i].status, STATUS_CANCELLED) {
                    Err(ERR_CONFIRM_CANCELLED.to_owned())
                } else {
                    proof {
                        lemma_confirm_wf(self@, tx_id@);
                    }
                    self.transactions[i].status = STATUS_CONFIRMED.to_owned();
                    assert(self@.journal =~= old(self)@.journal.update(
                        i as int,
                        old(self)@.journal[i as int].with_status(STATUS_CONFIRMED@),
                    ));
                    Ok(self.transactions[i].clone())
                }
            },
        }
    }

    /// Judges the cancellation of the entry at `found`, if there is one.
    fn cancel_refusal(&self, tx_id: &String, found: Option<usize>) -> (out: Option<String>)
        requires
            match found {
                Some(i) => i < self.transactions.len() && find_entry(self@.journal, tx_id@)
                    == Some(i as int),
                None => find_entry(self@.journal, tx_id@) is None,
            },
        ensures
            match self@.cancel_rejection(tx_id@) {
                Some(reason) => out matches Some(text) && text@ == reason,
                None => out is None,
            },
    {
        match found {
            None => Some(ERR_NOT_FOUND.to_owned()),
            Some(i) => {
                if same_text(&self.transactions[i].status, STATUS_CONFIRMED) {
                    Some(ERR_CANCEL_CONFIRMED.to_owned())
                } else if !same_text(&self.transactions[i].status, STATUS_PENDING) {
                    Some(ERR_CANCEL_CANCELLED.to_owned())
                } else {
                    None
                }
            },
        }
    }

    /// Cancels the pending entry at `i`.
    fn apply_cancel(&mut self, tx_id: &String, i: usize, updated: String) -> (out: Wallet)
        requires
            old(self).wf(),
            i < old(self).transactions.len(),
            find_entry(old(self)@.journal, tx_id@) == Some(i as int),
            old(self)@.cancel_rejection(tx_id@) is None,
        ensures
            final(self).wf(),
            out@ == final(self)@.wallet,
            final(self)@ == old(self)@.cancel(tx_id@, updated@),
    {
        proof {
            lemma_labels_distinct();
            lemma_balances_bounded(self@, i as int);
            lemma_cancel_wf(self@, tx_id@, updated@);
        }
        let amount = self.transactions[i].amount;
        if same_text(&self.transactions[i].tx_type, TX_ONLINE) {
            self.wallet.online_balance = self.wallet.online_balance + amount;
        } else if same_text(&self.transactions[i].tx_type, TX_OFFLINE) {
            self.wallet.offline_balance = self.wallet.offline_balance + amount;
        }
        self.wallet.total_balance = self.wallet.online_balance + self.wallet.offline_balance;
        self.wallet.last_updated = updated;
        self.transactions[i].status = STATUS_CANCELLED.to_owned();
        assert(self@.journal =~= old(self)@.journal.update(
            i as int,
            old(self)@.journal[i as int].with_status(STATUS_CANCELLED@),
        ));
        self.wallet.clone()
    }

    /// Cancels the first entry with this id, with `updated` as the time of
    /// the change, or refuses and changes nothing.
    pub fn cancel_transaction_at(&mut self, tx_id: String, updated: String) -> (out: Result<
        Wallet,
        String,
    >)
        requires
            old(self).wf(),
        ensures
            final(self).wf(),
            match old(self)@.cancel_rejection(tx_id@) {
                Some(reason) => out matches Err(text) && text@ == reason
                    && final(self)@ == old(self)@,
                None => out matches Ok(wallet) && wallet@ == final(self)@.wallet && final(self)@
                    == old(self)@.cancel(tx_id@, updated@),
            },
            final(self)@ == old(self)@.step(
                (Request::Cancel { tx_id: tx_id@, updated: updated@ }),
            ),
    {
        let found = self.locate(&tx_id);
        match self.cancel_refusal(&tx_id, found) {
            Some(reason) => Err(reason),
            None => match found {
                Some(i) => Ok(self.apply_cancel(&tx_id, i, updated)),
                None => Err(ERR_NOT_FOUND.to_owned()),
            },
        }
    }

    /// Cancels the first entry with this id and gives its amount back to the
    /// balance it was taken from. Refused, with nothing changed, where no
    /// entry has the id (`Transaction not found`), the entry is confirmed
    /// (`Cannot cancel confirmed transaction`) or it was cancelled before
    /// (`Transaction already cancelled`): only a pending entry is cancelled,
    /// so no amount comes back twice.
    pub fn cancel_transaction(&mut self, tx_id: String) -> (out: Result<Wallet, String>)
        requires
            old(self).wf(),
        ensures
            final(self).wf(),
            match old(self)@.cancel_rejection(tx_id@) {
                Some(reason) => out matches Err(text) && text@ == reason
                    && final(self)@ == old(self)@,
                None => out matches Ok(wallet) && wallet@ == final(self)@.wallet && final(self)@
                    == old(self)@.cancel(tx_id@, final(self)@.wallet.last_updated),
            },
    {
        let found = self.locate(&tx_id);
        match self.cancel_refusal(&tx_id, found) {
            Some(reason) => Err(reason),
            None => match found {
                Some(i) => {
                    let updated = utc_now_rfc3339();
                    Ok(self.apply_cancel(&tx_id, i, updated))
                },
                None => Err(ERR_NOT_FOUND.to_owned()),
            },
        }
    }

    /// A copy of the journal, in insertion order.
    pub fn get_transactions(&self) -> (out: Vec<Transaction>)
        ensures
            views_of(out@) == self@.journal,
    {
        clone_entries(&self.transactions)
    }

    /// Copies of the entries whose type is `tx_type`, in insertion order.
    pub fn get_transactions_by_type(&self, tx_type: &str) -> (out: Vec<Transaction>)
        ensures
            views_of(out@) == of_type(self@.journal, tx_type@),
    {
        let wanted: String = tx_type.to_owned();
        let mut out: Vec<Transaction> = Vec::new();
        let mut i: usize = 0;
        assert(self.transactions@.take(0) =~= Seq::empty());
        assert(views_of(Seq::<Transaction>::empty()) =~= Seq::empty());
        proof {
            reveal(Seq::filter);
        }
        while i < self.transactions.len()
            invariant
                i <= self.transactions.len(),
                wanted@ == tx_type@,
                views_of(out@) == of_type(views_of(self.transactions@.take(i as int)), tx_type@),
            decreases self.transactions.len() - i,
        {
            proof {
                let before = views_of(self.transactions@.take(i as int));
                lemma_filter_push(before, has_type(tx_type@), self.transactions@[i as int]@);
                assert(views_of(self.transactions@.take(i + 1)) =~= before.push(
                    self.transactions@[i as int]@,
                ));
            }
            if self.transactions[i].tx_type == wanted {
                let ghost kept = views_of(out@);
                out.push(self.transactions[i].clone());
                assert(views_of(out@) =~= kept.push(self.transactions@[i as int]@));
            }
            i = i + 1;
        }
        assert(self.transactions@.take(i as int) =~= self.transactions@);
        out
    }

    /// Copies of the entries whose status is `status`, in insertion order.
    pub fn get_transactions_by_status(&self, status: &str) -> (out: Vec<Transaction>)
        ensures
            views_of(out@) == of_status(self@.journal, status@),
    {
        let wanted: String = status.to_owned();
        let mut out: Vec<Transaction> = Vec::new();
        let mut i: usize = 0;
        assert(self.transactions@.take(0) =~= Seq::empty());
        assert(views_of(Seq::<Transaction>::empty()) =~= Seq::empty());
        proof {
            reveal(Seq::filter);
        }
        while i < self.transactions.len()
            invariant
                i <= self.transactions.len(),
                wanted@ == status@,
                views_of(out@) == of_status(views_of(self.transactions@.take(i as int)), status@),
            decreases self.transactions.len() - i,
        {
            proof {
                let before = views_of(self.transactions@.take(i as int));
                lemma_filter_push(before, has_status(status@), self.transactions@[i as int]@);
                assert(views_of(self.transactions@.take(i + 1)) =~= before.push(
                    self.transactions@[i as int]@,
                ));
            }
            if self.transactions[i].status == wanted {
                let ghost kept = views_of(out@);
                out.push(self.transactions[i].clone());
                assert(views_of(out@) =~= kept.push(self.transactions@[i as int]@));
            }
            i = i + 1;
        }
        assert(self.transactions@.take(i as int) =~= self.transactions@);
        out
    }

    /// The number of entries, the number of confirmed entries, and the sum
    /// of the amounts of the confirmed entries; pending and cancelled
    /// entries do not count towards the volume.
    pub fn get_stats(&self) -> (out: WalletStats)
        ensures
            out.total_transactions == self@.journal.len(),
            out.confirmed_transactions == of_status(self@.journal, STATUS_CONFIRMED@).len(),
            out.total_volume == confirmed_volume(self@.journal),
            out.wallet_id@ == self@.wallet.id,
            out.created_at@ == self@.wallet.created_at,
    {
        let mut confirmed: usize = 0;
        let mut volume: u128 = 0;
        let mut i: usize = 0;
        assert(self.transactions@.take(0) =~= Seq::empty());
        assert(views_of(Seq::<Transaction>::empty()) =~= Seq::empty());
        proof {
            reveal(Seq::filter);
        }
        while i < self.transactions.len()
            invariant
                i <= self.transactions.len(),
                confirmed <= i,
                confirmed == of_status(
                    views_of(self.transactions@.take(i as int)),
                    STATUS_CONFIRMED@,
                ).len(),
                volume == confirmed_volume(views_of(self.transactions@.take(i as int))),
                volume <= i * 0xffff_ffff_ffff_ffff,
            decreases self.transactions.len() - i,
        {
            proof {
                let before = views_of(self.transactions@.take(i as int));
                let entry = self.transactions@[i as int]@;
                lemma_filter_push(before, has_status(STATUS_CONFIRMED@), entry);
                lemma_confirmed_volume_push(before, entry);
                assert(views_of(self.transactions@.take(i + 1)) =~= before.push(entry));
            }
            if same_text(&self.transactions[i].status, STATUS_CONFIRMED) {
                confirmed = confirmed + 1;
                volume = volume + self.transactions[i].amount as u128;
            }
            i = i + 1;
        }
        assert(self.transactions@.take(i as int) =~= self.transactions@);
        WalletStats {
            total_transactions: self.transactions.len(),
            confirmed_transactions: confirmed,
            total_volume: volume,
            wallet_id: self.wallet.id.clone(),
            created_at: self.wallet.created_at.clone(),
        }
    }
}

} // verus!

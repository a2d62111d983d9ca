//! The ledger as a mathematical state machine: a state, the condition under
//! which each operation is refused, and the state each accepted operation
//! leads to. The executable engine is specified against these functions.

use crate::records::{KeyPairView, TransactionView, WalletView};
use crate::signing::{canonical, stamp};
use vstd::prelude::*;

verus! {

pub const TX_TRANSFER: &'static str = "transfer";

pub const TX_OFFLINE: &'static str = "offline";

pub const TX_ONLINE: &'static str = "online";

pub const STATUS_PENDING: &'static str = "pending";

pub const STATUS_CONFIRMED: &'static str = "confirmed";

pub const STATUS_CANCELLED: &'static str = "cancelled";

pub const MERCHANT_VAULT_TRANSFER: &'static str = "Vault Transfer";

pub const MERCHANT_VAULT_WITHDRAWAL: &'static str = "Vault Withdrawal";

pub const ERR_INVALID_AMOUNT: &'static str = "Amount must be positive";

pub const ERR_INSUFFICIENT_ONLINE: &'static str = "Insufficient online balance";

pub const ERR_INSUFFICIENT_VAULT: &'static str = "Insufficient vault balance";

pub const ERR_INSUFFICIENT_OFFLINE: &'static str = "Insufficient offline balance";

pub const ERR_KEYS_NOT_INITIALIZED: &'static str = "Keys not initialized";

pub const ERR_NOT_FOUND: &'static str = "Transaction not found";

pub const ERR_CANCEL_CONFIRMED: &'static str = "Cannot cancel confirmed transaction";

pub const ERR_CANCEL_CANCELLED: &'static str = "Transaction already cancelled";

pub const ERR_CONFIRM_CANCELLED: &'static str = "Cannot confirm cancelled transaction";

/// The online balance of a new wallet.
pub const OPENING_ONLINE: u64 = 25000;

/// The offline balance of a new wallet.
pub const OPENING_OFFLINE: u64 = 15000;

/// The funds a new wallet holds in all.
pub open spec fn opening_funds() -> int {
    OPENING_ONLINE + OPENING_OFFLINE
}

/// One of the wallet's two balances.
#[derive(Clone, Copy, Debug, PartialEq, Eq)]
pub enum Side {
    Online,
    Offline,
}

impl Side {
    /// The other balance.
    pub open spec fn other(self) -> Side {
        match self {
            Side::Online => Side::Offline,
            Side::Offline => Side::Online,
        }
    }

    /// The `tx_type` of a send that draws on this balance.
    pub open spec fn send_type(self) -> Seq<char> {
        match self {
            Side::Online => TX_ONLINE@,
            Side::Offline => TX_OFFLINE@,
        }
    }

    /// The message when a send asks for more than this balance holds.
    pub open spec fn send_shortfall(self) -> Seq<char> {
        match self {
            Side::Online => ERR_INSUFFICIENT_ONLINE@,
            Side::Offline => ERR_INSUFFICIENT_OFFLINE@,
        }
    }

    /// The message when a vault transfer asks for more than this balance holds.
    pub open spec fn vault_shortfall(self) -> Seq<char> {
        match self {
            Side::Online => ERR_INSUFFICIENT_ONLINE@,
            Side::Offline => ERR_INSUFFICIENT_VAULT@,
        }
    }

    /// The merchant name on a vault transfer out of this balance.
    pub open spec fn vault_merchant(self) -> Seq<char> {
        match self {
            Side::Online => MERCHANT_VAULT_TRANSFER@,
            Side::Offline => MERCHANT_VAULT_WITHDRAWAL@,
        }
    }
}

impl WalletView {
    /// The balance on `side`.
    pub open spec fn balance(self, side: Side) -> int {
        match side {
            Side::Online => self.online_balance,
            Side::Offline => self.offline_balance,
        }
    }

    /// This wallet with new balances: the total is recomputed from them.
    pub open spec fn rebalanced(self, online: int, offline: int, updated: Seq<char>) -> WalletView {
        WalletView {
            online_balance: online,
            offline_balance: offline,
            total_balance: online + offline,
            last_updated: updated,
            ..self
        }
    }

    /// This wallet with `amount` added to the balance on `side`.
    pub open spec fn credited(self, side: Side, amount: int, updated: Seq<char>) -> WalletView {
        match side {
            Side::Online => self.rebalanced(
                self.online_balance + amount,
                self.offline_balance,
                updated,
            ),
            Side::Offline => self.rebalanced(
                self.online_balance,
                self.offline_balance + amount,
                updated,
            ),
        }
    }

    /// This wallet with `amount` taken off the balance on `side`.
    pub open spec fn debited(self, side: Side, amount: int, updated: Seq<char>) -> WalletView {
        self.credited(side, -amount, updated)
    }

    /// This wallet with `amount` moved from the balance on `from` to the other.
    pub open spec fn shifted(self, from: Side, amount: int, updated: Seq<char>) -> WalletView {
        match from {
            Side::Online => self.rebalanced(
                self.online_balance - amount,
                self.offline_balance + amount,
                updated,
            ),
            Side::Offline => self.rebalanced(
                self.online_balance + amount,
                self.offline_balance - amount,
                updated,
            ),
        }
    }

    /// The total is the sum of the two balances, and neither is negative.
    pub open spec fn wf(self) -> bool {
        &&& 0 <= self.online_balance
        &&& 0 <= self.offline_balance
        &&& self.total_balance == self.online_balance + self.offline_balance
    }
}

impl TransactionView {
    /// A send to another party, as opposed to a transfer between the wallet's
    /// own balances.
    pub open spec fn is_send(self) -> bool {
        self.tx_type == TX_OFFLINE@ || self.tx_type == TX_ONLINE@
    }

    /// What this entry holds back from the wallet: the amount of a send that
    /// was not cancelled, nothing otherwise.
    pub open spec fn debit(self) -> int {
        if self.is_send() && self.status != STATUS_CANCELLED@ {
            self.amount
        } else {
            0
        }
    }

    /// What this entry adds to the confirmed volume.
    pub open spec fn confirmed_amount(self) -> int {
        if self.status == STATUS_CONFIRMED@ {
            self.amount
        } else {
            0
        }
    }

    /// What the wallet gets back when this entry is cancelled.
    pub open spec fn refund(self, side: Side) -> int {
        if self.tx_type == side.send_type() {
            self.amount
        } else {
            0
        }
    }

    /// This entry with another status.
    pub open spec fn with_status(self, status: Seq<char>) -> TransactionView {
        TransactionView { status, ..self }
    }

    /// An entry as the wallet `owner` records it: a positive amount sent by
    /// the owner, a known type and status, and a transfer between the
    /// owner's balances is confirmed, unsigned and addressed to the owner.
    pub open spec fn wf(self, owner: Seq<char>) -> bool {
        &&& 0 < self.amount
        &&& self.from_wallet_id == owner
        &&& (self.tx_type == TX_TRANSFER@ || self.is_send())
        &&& (self.status == STATUS_PENDING@ || self.status == STATUS_CONFIRMED@ || self.status
            == STATUS_CANCELLED@)
        &&& self.tx_type == TX_TRANSFER@ ==> {
            &&& self.status == STATUS_CONFIRMED@
            &&& self.to_wallet_id == owner
            &&& self.signature.len() == 0
        }
    }
}

/// The sum of what the entries hold back from the wallet.
pub open spec fn total_debit(journal: Seq<TransactionView>) -> int
    decreases journal.len(),
{
    if journal.len() == 0 {
        0
    } else {
        total_debit(journal.drop_last()) + journal.last().debit()
    }
}

/// The sum of the amounts of the confirmed entries.
pub open spec fn confirmed_volume(journal: Seq<TransactionView>) -> int
    decreases journal.len(),
{
    if journal.len() == 0 {
        0
    } else {
        confirmed_volume(journal.drop_last()) + journal.last().confirmed_amount()
    }
}

/// The test "has this type".
pub open spec fn has_type(tx_type: Seq<char>) -> spec_fn(TransactionView) -> bool {
    |t: TransactionView| t.tx_type == tx_type
}

/// The test "has this status".
pub open spec fn has_status(status: Seq<char>) -> spec_fn(TransactionView) -> bool {
    |t: TransactionView| t.status == status
}

/// The entries whose type is `tx_type`, in journal order.
pub open spec fn of_type(journal: Seq<TransactionView>, tx_type: Seq<char>) -> Seq<
    TransactionView,
> {
    journal.filter(has_type(tx_type))
}

/// The entries whose status is `status`, in journal order.
pub open spec fn of_status(journal: Seq<TransactionView>, status: Seq<char>) -> Seq<
    TransactionView,
> {
    journal.filter(has_status(status))
}

/// `i` is the position of the first entry with this id.
pub open spec fn is_first_match(journal: Seq<TransactionView>, id: Seq<char>, i: int) -> bool {
    &&& 0 <= i < journal.len()
    &&& journal[i].id == id
    &&& forall|j: int| 0 <= j < i ==> (#[trigger] journal[j]).id != id
}

/// The position of the first entry with this id, if there is one.
pub open spec fn find_entry(journal: Seq<TransactionView>, id: Seq<char>) -> Option<int> {
    if exists|i: int| is_first_match(journal, id, i) {
        Some(choose|i: int| is_first_match(journal, id, i))
    } else {
        None
    }
}

/// Why a request for `amount` out of `available` is refused, if it is.
pub open spec fn funds_rejection(amount: int, available: int, shortfall: Seq<char>) -> Option<
    Seq<char>,
> {
    if amount <= 0 {
        Some(ERR_INVALID_AMOUNT@)
    } else if amount > available {
        Some(shortfall)
    } else {
        None
    }
}

/// The whole state of the ledger.
pub struct LedgerView {
    pub wallet: WalletView,
    pub keypair: Option<KeyPairView>,
    pub journal: Seq<TransactionView>,
}

impl LedgerView {
    /// A new ledger: the opening balances, no keys, an empty journal.
    pub open spec fn opening(id: Seq<char>, now: Seq<char>) -> LedgerView {
        LedgerView {
            wallet: WalletView {
                id,
                online_balance: OPENING_ONLINE as int,
                offline_balance: OPENING_OFFLINE as int,
                total_balance: opening_funds(),
                created_at: now,
                last_updated: now,
            },
            keypair: None,
            journal: Seq::empty(),
        }
    }

    /// The ledger's invariant. The wallet's total is the sum of its two
    /// non-negative balances; these and what the journal's live sends hold
    /// back add up to the opening funds; every entry is well formed; and the
    /// public key, if there is one, derives from the private key.
    pub open spec fn wf(self) -> bool {
        &&& self.wallet.wf()
        &&& self.wallet.online_balance + self.wallet.offline_balance + total_debit(self.journal)
            == opening_funds()
        &&& forall|i: int|
            0 <= i < self.journal.len() ==> (#[trigger] self.journal[i]).wf(self.wallet.id)
        &&& self.keypair matches Some(keys) ==> keys.wf()
    }

    /// This ledger with a new key pair in place of any earlier one.
    pub open spec fn with_keys(self, keys: KeyPairView) -> LedgerView {
        LedgerView { keypair: Some(keys), ..self }
    }

    /// Why a vault transfer of `amount` out of `from` is refused, if it is.
    pub open spec fn vault_rejection(self, from: Side, amount: int) -> Option<Seq<char>> {
        funds_rejection(amount, self.wallet.balance(from), from.vault_shortfall())
    }

    /// The journal entry of a vault transfer.
    pub open spec fn vault_entry(
        self,
        from: Side,
        amount: int,
        tx_id: Seq<char>,
        timestamp: Seq<char>,
    ) -> TransactionView {
        TransactionView {
            id: tx_id,
            from_wallet_id: self.wallet.id,
            to_wallet_id: self.wallet.id,
            merchant_name: from.vault_merchant(),
            amount,
            timestamp,
            signature: Seq::empty(),
            tx_type: TX_TRANSFER@,
            status: STATUS_CONFIRMED@,
        }
    }

    /// The state after an accepted vault transfer: `amount` has moved out of
    /// `from` into the other balance, and a confirmed entry records it.
    pub open spec fn vault_transfer(
        self,
        from: Side,
        amount: int,
        tx_id: Seq<char>,
        updated: Seq<char>,
        timestamp: Seq<char>,
    ) -> LedgerView {
        LedgerView {
            wallet: self.wallet.shifted(from, amount, updated),
            journal: self.journal.push(self.vault_entry(from, amount, tx_id, timestamp)),
            ..self
        }
    }

    /// Why a send of `amount` out of `from` is refused, if it is: the amount
    /// is judged first, then the funds, then the keys.
    pub open spec fn send_rejection(self, from: Side, amount: int) -> Option<Seq<char>> {
        match funds_rejection(amount, self.wallet.balance(from), from.send_shortfall()) {
            Some(reason) => Some(reason),
            None => if self.keypair is None {
                Some(ERR_KEYS_NOT_INITIALIZED@)
            } else {
                None
            },
        }
    }

    /// The journal entry of a send, stamped with the ledger's private key.
    pub open spec fn send_entry(
        self,
        from: Side,
        receiver: Seq<char>,
        merchant: Seq<char>,
        amount: int,
        tx_id: Seq<char>,
        timestamp: Seq<char>,
    ) -> TransactionView {
        TransactionView {
            id: tx_id,
            from_wallet_id: self.wallet.id,
            to_wallet_id: receiver,
            merchant_name: merchant,
            amount,
            timestamp,
            signature: stamp(
                canonical(tx_id, self.wallet.id, receiver, amount, timestamp),
                self.keypair->0.private_key,
            ),
            tx_type: from.send_type(),
            status: STATUS_PENDING@,
        }
    }

    /// The state after an accepted send: `amount` has left the balance on
    /// `from` at once, and a pending entry records it.
    pub open spec fn send(
        self,
        from: Side,
        receiver: Seq<char>,
        merchant: Seq<char>,
        amount: int,
        tx_id: Seq<char>,
        timestamp: Seq<char>,
        updated: Seq<char>,
    ) -> LedgerView {
        LedgerView {
            wallet: self.wallet.debited(from, amount, updated),
            journal: self.journal.push(
                self.send_entry(from, receiver, merchant, amount, tx_id, timestamp),
            ),
            ..self
        }
    }

    /// Why confirming the entry `tx_id` is refused, if it is. A cancelled
    /// entry stays cancelled.
    pub open spec fn confirm_rejection(self, tx_id: Seq<char>) -> Option<Seq<char>> {
        match find_entry(self.journal, tx_id) {
            None => Some(ERR_NOT_FOUND@),
            Some(i) => if self.journal[i].status == STATUS_CANCELLED@ {
                Some(ERR_CONFIRM_CANCELLED@)
            } else {
                None
            },
        }
    }

    /// The state after an accepted confirmation: the entry is confirmed and
    /// nothing else has changed.
    pub open spec fn confirm(self, tx_id: Seq<char>) -> LedgerView {
        let i = find_entry(self.journal, tx_id)->0;
        LedgerView {
            journal: self.journal.update(i, self.journal[i].with_status(STATUS_CONFIRMED@)),
            ..self
        }
    }

    /// Why cancelling the entry `tx_id` is refused, if it is. Only a pending
    /// entry can be cancelled.
    pub open spec fn cancel_rejection(self, tx_id: Seq<char>) -> Option<Seq<char>> {
        match find_entry(self.journal, tx_id) {
            None => Some(ERR_NOT_FOUND@),
            Some(i) => if self.journal[i].status == STATUS_CONFIRMED@ {
                Some(ERR_CANCEL_CONFIRMED@)
            } else if self.journal[i].status != STATUS_PENDING@ {
                Some(ERR_CANCEL_CANCELLED@)
            } else {
                None
            },
        }
    }

    /// The state after an accepted cancellation: the amount is back on the
    /// balance it was taken from, and the entry is cancelled.
    pub open spec fn cancel(self, tx_id: Seq<char>, updated: Seq<char>) -> LedgerView {
        let i = find_entry(self.journal, tx_id)->0;
        let entry = self.journal[i];
        LedgerView {
            wallet: self.wallet.rebalanced(
                self.wallet.online_balance + entry.refund(Side::Online),
                self.wallet.offline_balance + entry.refund(Side::Offline),
                updated,
            ),
            journal: self.journal.update(i, entry.with_status(STATUS_CANCELLED@)),
            ..self
        }
    }
}

/// One request to the ledger, with the id and the times that it is to carry.
pub enum Request {
    /// Derive a new key pair from a seed.
    InitializeKeys { seed: Seq<char>, created_at: Seq<char> },
    /// Move funds between the two balances.
    VaultTransfer {
        from: Side,
        amount: int,
        tx_id: Seq<char>,
        updated: Seq<char>,
        timestamp: Seq<char>,
    },
    /// Send funds to another party.
    Send {
        from: Side,
        receiver: Seq<char>,
        merchant: Seq<char>,
        amount: int,
        tx_id: Seq<char>,
        timestamp: Seq<char>,
        updated: Seq<char>,
    },
    /// Confirm an entry.
    Confirm { tx_id: Seq<char> },
    /// Cancel an entry.
    Cancel { tx_id: Seq<char>, updated: Seq<char> },
}

impl LedgerView {
    /// Why a request is refused, if it is.
    pub open spec fn rejection(self, request: Request) -> Option<Seq<char>> {
        match request {
            Request::InitializeKeys { .. } => None,
            Request::VaultTransfer { from, amount, .. } => self.vault_rejection(from, amount),
            Request::Send { from, amount, .. } => self.send_rejection(from, amount),
            Request::Confirm { tx_id } => self.confirm_rejection(tx_id),
            Request::Cancel { tx_id, .. } => self.cancel_rejection(tx_id),
        }
    }

    /// The state after a request: unchanged where the request is refused.
    pub open spec fn step(self, request: Request) -> LedgerView {
        if self.rejection(request) is Some {
            self
        } else {
            match request {
                Request::InitializeKeys { seed, created_at } => self.with_keys(
                    KeyPairView::from_seed(seed, created_at),
                ),
                Request::VaultTransfer {
                    from,
                    amount,
                    tx_id,
                    updated,
                    timestamp,
                } => self.vault_transfer(from, amount, tx_id, updated, timestamp),
                Request::Send {
                    from,
                    receiver,
                    merchant,
                    amount,
                    tx_id,
                    timestamp,
                    updated,
                } => self.send(from, receiver, merchant, amount, tx_id, timestamp, updated),
                Request::Confirm { tx_id } => self.confirm(tx_id),
                Request::Cancel { tx_id, updated } => self.cancel(tx_id, updated),
            }
        }
    }

    /// The state after a run of requests, taken in order.
    pub open spec fn run(self, requests: Seq<Request>) -> LedgerView
        decreases requests.len(),
    {
        if requests.len() == 0 {
            self
        } else {
            self.run(requests.drop_last()).step(requests.last())
        }
    }
}

} // verus!

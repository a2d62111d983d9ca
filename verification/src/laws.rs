//! What holds of the ledger whatever is asked of it.

use crate::lemmas::{
    lemma_find_entry, lemma_find_entry_first, lemma_find_entry_none, lemma_labels_distinct,
    lemma_total_debit_covers, lemma_total_debit_nonnegative, lemma_total_debit_push,
    lemma_total_debit_update,
};
use crate::model::{
    find_entry, is_first_match, opening_funds, LedgerView, Request, Side, ERR_CANCEL_CANCELLED,
    ERR_CONFIRM_CANCELLED, ERR_INVALID_AMOUNT, STATUS_CANCELLED, STATUS_CONFIRMED,
};
use crate::records::KeyPairView;
use crate::signing::stamp;
use vstd::prelude::*;

verus! {

/// A new ledger is well formed.
pub proof fn lemma_opening_wf(id: Seq<char>, now: Seq<char>)
    ensures
        LedgerView::opening(id, now).wf(),
{
}

/// New keys leave the ledger well formed.
pub proof fn lemma_with_keys_wf(s: LedgerView, keys: KeyPairView)
    requires
        s.wf(),
        keys.wf(),
    ensures
        s.with_keys(keys).wf(),
{
}

/// An accepted vault transfer leaves the ledger well formed, and the sum of
/// the two balances as it was.
pub proof fn lemma_vault_transfer_wf(
    s: LedgerView,
    from: Side,
    amount: int,
    tx_id: Seq<char>,
    updated: Seq<char>,
    timestamp: Seq<char>,
)
    requires
        s.wf(),
        s.vault_rejection(from, amount) is None,
    ensures
        s.vault_transfer(from, amount, tx_id, updated, timestamp).wf(),
        s.vault_transfer(from, amount, tx_id, updated, timestamp).wallet.total_balance
            == s.wallet.total_balance,
{
    let after = s.vault_transfer(from, amount, tx_id, updated, timestamp);
    let entry = s.vault_entry(from, amount, tx_id, timestamp);
    lemma_labels_distinct();
    lemma_total_debit_push(s.journal, entry);
    assert forall|i: int| 0 <= i < after.journal.len() implies (#[trigger] after.journal[i]).wf(
        after.wallet.id,
    ) by {
        if i < s.journal.len() {
            assert(after.journal[i] == s.journal[i]);
        }
    }
}

/// An accepted send leaves the ledger well formed.
pub proof fn lemma_send_wf(
    s: LedgerView,
    from: Side,
    receiver: Seq<char>,
    merchant: Seq<char>,
    amount: int,
    tx_id: Seq<char>,
    timestamp: Seq<char>,
    updated: Seq<char>,
)
    requires
        s.wf(),
        s.send_rejection(from, amount) is None,
    ensures
        s.send(from, receiver, merchant, amount, tx_id, timestamp, updated).wf(),
{
    let after = s.send(from, receiver, merchant, amount, tx_id, timestamp, updated);
    let entry = s.send_entry(from, receiver, merchant, amount, tx_id, timestamp);
    lemma_labels_distinct();
    lemma_total_debit_push(s.journal, entry);
    assert forall|i: int| 0 <= i < after.journal.len() implies (#[trigger] after.journal[i]).wf(
        after.wallet.id,
    ) by {
        if i < s.journal.len() {
            assert(after.journal[i] == s.journal[i]);
        }
    }
}

/// An accepted confirmation leaves the ledger well formed and the wallet
/// untouched.
pub proof fn lemma_confirm_wf(s: LedgerView, tx_id: Seq<char>)
    requires
        s.wf(),
        s.confirm_rejection(tx_id) is None,
    ensures
        s.confirm(tx_id).wf(),
        s.confirm(tx_id).wallet == s.wallet,
{
    let after = s.confirm(tx_id);
    lemma_find_entry(s.journal, tx_id);
    let i = find_entry(s.journal, tx_id)->0;
    let entry = s.journal[i].with_status(STATUS_CONFIRMED@);
    lemma_labels_distinct();
    lemma_total_debit_update(s.journal, i, entry);
    assert(s.journal[i].wf(s.wallet.id));
    assert forall|k: int| 0 <= k < after.journal.len() implies (#[trigger] after.journal[k]).wf(
        after.wallet.id,
    ) by {
        assert(s.journal[k].wf(s.wallet.id));
    }
}

/// An accepted cancellation leaves the ledger well formed.
pub proof fn lemma_cancel_wf(s: LedgerView, tx_id: Seq<char>, updated: Seq<char>)
    requires
        s.wf(),
        s.cancel_rejection(tx_id) is None,
    ensures
        s.cancel(tx_id, updated).wf(),
{
    let after = s.cancel(tx_id, updated);
    lemma_find_entry(s.journal, tx_id);
    let i = find_entry(s.journal, tx_id)->0;
    let entry = s.journal[i].with_status(STATUS_CANCELLED@);
    lemma_labels_distinct();
    lemma_total_debit_update(s.journal, i, entry);
    assert(s.journal[i].wf(s.wallet.id));
    assert forall|k: int| 0 <= k < after.journal.len() implies (#[trigger] after.journal[k]).wf(
        after.wallet.id,
    ) by {
        assert(s.journal[k].wf(s.wallet.id));
    }
}

/// In a well-formed ledger the two balances together never exceed the
/// opening funds.
pub proof fn lemma_funds_bounded(s: LedgerView)
    requires
        s.wf(),
    ensures
        s.wallet.online_balance + s.wallet.offline_balance <= opening_funds(),
{
    assert forall|k: int| 0 <= k < s.journal.len()
        implies 0 <= (#[trigger] s.journal[k]).amount by {
        assert(s.journal[k].wf(s.wallet.id));
    }
    lemma_total_debit_nonnegative(s.journal);
}

/// In a well-formed ledger no balance exceeds the opening funds, and a
/// pending entry's amount fits beside the balances.
pub proof fn lemma_balances_bounded(s: LedgerView, i: int)
    requires
        s.wf(),
        0 <= i < s.journal.len(),
    ensures
        s.wallet.online_balance + s.wallet.offline_balance + s.journal[i].debit()
            <= opening_funds(),
{
    assert forall|k: int| 0 <= k < s.journal.len()
        implies 0 <= (#[trigger] s.journal[k]).amount by {
        assert(s.journal[k].wf(s.wallet.id));
    }
    lemma_total_debit_covers(s.journal, i);
}

/// Whatever is asked of a well-formed ledger, it stays well formed.
pub proof fn lemma_step_wf(s: LedgerView, request: Request)
    requires
        s.wf(),
    ensures
        s.step(request).wf(),
{
    if s.rejection(request) is None {
        match request {
            Request::InitializeKeys { seed, created_at } => {
                lemma_with_keys_wf(s, KeyPairView::from_seed(seed, created_at));
            },
            Request::VaultTransfer { from, amount, tx_id, updated, timestamp } => {
                lemma_vault_transfer_wf(s, from, amount, tx_id, updated, timestamp);
            },
            Request::Send { from, receiver, merchant, amount, tx_id, timestamp, updated } => {
                lemma_send_wf(s, from, receiver, merchant, amount, tx_id, timestamp, updated);
            },
            Request::Confirm { tx_id } => {
                lemma_confirm_wf(s, tx_id);
            },
            Request::Cancel { tx_id, updated } => {
                lemma_cancel_wf(s, tx_id, updated);
            },
        }
    }
}

/// Balance conservation. After any run of key initialisations, vault
/// transfers, sends, confirmations and cancellations on a well-formed
/// ledger, accepted or refused, the total is the sum of the online and the
/// offline balance, neither balance is negative, and the ledger is well
/// formed.
pub proof fn lemma_run_conserves(s: LedgerView, requests: Seq<Request>)
    requires
        s.wf(),
    ensures
        s.run(requests).wf(),
        s.run(requests).wallet.total_balance == s.run(requests).wallet.online_balance + s.run(
            requests,
        ).wallet.offline_balance,
        0 <= s.run(requests).wallet.online_balance,
        0 <= s.run(requests).wallet.offline_balance,
    decreases requests.len(),
{
    if requests.len() > 0 {
        lemma_run_conserves(s, requests.drop_last());
        lemma_step_wf(s.run(requests.drop_last()), requests.last());
    }
}

/// Balance conservation from the start: the same holds of every state that
/// a new ledger can reach.
pub proof fn lemma_reachable_conserves(id: Seq<char>, now: Seq<char>, requests: Seq<Request>)
    ensures
        LedgerView::opening(id, now).run(requests).wf(),
        LedgerView::opening(id, now).run(requests).wallet.total_balance == LedgerView::opening(
            id,
            now,
        ).run(requests).wallet.online_balance + LedgerView::opening(id, now).run(
            requests,
        ).wallet.offline_balance,
        0 <= LedgerView::opening(id, now).run(requests).wallet.online_balance,
        0 <= LedgerView::opening(id, now).run(requests).wallet.offline_balance,
{
    lemma_opening_wf(id, now);
    lemma_run_conserves(LedgerView::opening(id, now), requests);
}

/// A refused request changes nothing.
pub proof fn lemma_refusal_changes_nothing(s: LedgerView, request: Request)
    requires
        s.rejection(request) is Some,
    ensures
        s.step(request) == s,
{
}

/// Non-negativity. A vault transfer or a send that asks for more than the
/// balance it draws on holds is refused with that balance's shortfall
/// message, a request for nothing or less with `Amount must be positive`,
/// and either leaves the ledger as it was.
pub proof fn lemma_overdraft_refused(s: LedgerView, from: Side, amount: int)
    requires
        amount <= 0 || amount > s.wallet.balance(from),
    ensures
        amount <= 0 ==> s.vault_rejection(from, amount) == Some(ERR_INVALID_AMOUNT@)
            && s.send_rejection(from, amount) == Some(ERR_INVALID_AMOUNT@),
        amount > 0 ==> s.vault_rejection(from, amount) == Some(from.vault_shortfall())
            && s.send_rejection(from, amount) == Some(from.send_shortfall()),
        forall|tx_id: Seq<char>, updated: Seq<char>, timestamp: Seq<char>|
            #![auto]
            s.step(Request::VaultTransfer { from, amount, tx_id, updated, timestamp }) == s,
        forall|
            receiver: Seq<char>,
            merchant: Seq<char>,
            tx_id: Seq<char>,
            timestamp: Seq<char>,
            updated: Seq<char>,
        |
            #![auto]
            s.step(Request::Send { from, receiver, merchant, amount, tx_id, timestamp, updated })
                == s,
{
}

/// Replacing an entry's status leaves every lookup as it was.
pub proof fn lemma_find_entry_after_status(
    s: LedgerView,
    i: int,
    status: Seq<char>,
    tx_id: Seq<char>,
)
    requires
        0 <= i < s.journal.len(),
    ensures
        find_entry(s.journal.update(i, s.journal[i].with_status(status)), tx_id) == find_entry(
            s.journal,
            tx_id,
        ),
{
    let after = s.journal.update(i, s.journal[i].with_status(status));
    lemma_find_entry(s.journal, tx_id);
    match find_entry(s.journal, tx_id) {
        Some(k) => {
            assert(after[k].id == tx_id);
            assert forall|j: int| 0 <= j < k implies (#[trigger] after[j]).id != tx_id by {
                assert(s.journal[j].id != tx_id);
            }
            assert(is_first_match(after, tx_id, k));
            lemma_find_entry_first(after, tx_id, k);
        },
        None => {
            assert forall|j: int| 0 <= j < after.len() implies (#[trigger] after[j]).id
                != tx_id by {
                assert(s.journal[j].id != tx_id);
            }
            lemma_find_entry_none(after, tx_id);
        },
    }
}

/// A send under an id that no earlier entry has is the entry that a lookup
/// of that id finds.
pub proof fn lemma_send_is_found(
    s: LedgerView,
    from: Side,
    receiver: Seq<char>,
    merchant: Seq<char>,
    amount: int,
    tx_id: Seq<char>,
    timestamp: Seq<char>,
    updated: Seq<char>,
)
    requires
        find_entry(s.journal, tx_id) is None,
    ensures
        find_entry(
            s.send(from, receiver, merchant, amount, tx_id, timestamp, updated).journal,
            tx_id,
        ) == Some(s.journal.len() as int),
{
    let sent = s.send(from, receiver, merchant, amount, tx_id, timestamp, updated);
    lemma_find_entry(s.journal, tx_id);
    assert forall|j: int| 0 <= j < s.journal.len() implies (#[trigger] sent.journal[j]).id
        != tx_id by {
        assert(sent.journal[j] == s.journal[j]);
    }
    assert(is_first_match(sent.journal, tx_id, s.journal.len() as int));
    lemma_find_entry_first(sent.journal, tx_id, s.journal.len() as int);
}

/// Send, then cancel. Where a send is accepted under an id that no earlier
/// entry has, cancelling that id is accepted and puts both balances and the
/// total back to what they were before the send; the entry stays in the
/// journal, cancelled.
pub proof fn lemma_send_then_cancel_restores(
    s: LedgerView,
    from: Side,
    receiver: Seq<char>,
    merchant: Seq<char>,
    amount: int,
    tx_id: Seq<char>,
    timestamp: Seq<char>,
    updated: Seq<char>,
    cancelled_at: Seq<char>,
)
    requires
        s.wf(),
        s.send_rejection(from, amount) is None,
        find_entry(s.journal, tx_id) is None,
    ensures
        ({
            let sent = s.send(from, receiver, merchant, amount, tx_id, timestamp, updated);
            let back = sent.cancel(tx_id, cancelled_at);
            &&& sent.wallet.balance(from) == s.wallet.balance(from) - amount
            &&& sent.cancel_rejection(tx_id) is None
            &&& back.wallet.online_balance == s.wallet.online_balance
            &&& back.wallet.offline_balance == s.wallet.offline_balance
            &&& back.wallet.total_balance == s.wallet.total_balance
            &&& back.journal.len() == s.journal.len() + 1
            &&& back.journal.last().status == STATUS_CANCELLED@
        }),
{
    lemma_labels_distinct();
    lemma_send_is_found(s, from, receiver, merchant, amount, tx_id, timestamp, updated);
}

/// Send, then confirm. Where a send is accepted under an id that no earlier
/// entry has, confirming that id is accepted and leaves the wallet as the
/// send left it: the amount stays off the balance.
pub proof fn lemma_send_then_confirm_keeps(
    s: LedgerView,
    from: Side,
    receiver: Seq<char>,
    merchant: Seq<char>,
    amount: int,
    tx_id: Seq<char>,
    timestamp: Seq<char>,
    updated: Seq<char>,
)
    requires
        s.wf(),
        s.send_rejection(from, amount) is None,
        find_entry(s.journal, tx_id) is None,
    ensures
        ({
            let sent = s.send(from, receiver, merchant, amount, tx_id, timestamp, updated);
            let kept = sent.confirm(tx_id);
            &&& sent.confirm_rejection(tx_id) is None
            &&& kept.wallet == sent.wallet
            &&& kept.wallet.balance(from) == s.wallet.balance(from) - amount
            &&& kept.wallet.balance(from.other()) == s.wallet.balance(from.other())
            &&& kept.journal.last().status == STATUS_CONFIRMED@
        }),
{
    lemma_labels_distinct();
    lemma_send_is_found(s, from, receiver, merchant, amount, tx_id, timestamp, updated);
}

/// A cancelled entry stays cancelled. After an accepted cancellation,
/// confirming the same id is refused with `Cannot confirm cancelled
/// transaction`, cancelling it again is refused with `Transaction already
/// cancelled`, and neither changes the ledger: no amount comes back twice.
pub proof fn lemma_cancelled_is_final(s: LedgerView, tx_id: Seq<char>, updated: Seq<char>)
    requires
        s.cancel_rejection(tx_id) is None,
    ensures
        ({
            let after = s.cancel(tx_id, updated);
            &&& after.confirm_rejection(tx_id) == Some(ERR_CONFIRM_CANCELLED@)
            &&& after.cancel_rejection(tx_id) == Some(ERR_CANCEL_CANCELLED@)
            &&& after.step(Request::Confirm { tx_id }) == after
            &&& forall|again: Seq<char>|
                #![auto]
                after.step(Request::Cancel { tx_id, updated: again }) == after
        }),
{
    lemma_labels_distinct();
    lemma_find_entry(s.journal, tx_id);
    let i = find_entry(s.journal, tx_id)->0;
    lemma_find_entry_after_status(s, i, STATUS_CANCELLED@, tx_id);
}

/// A confirmed entry stays confirmed: cancelling it is refused, and
/// confirming it again changes nothing.
pub proof fn lemma_confirmed_is_final(s: LedgerView, tx_id: Seq<char>)
    requires
        s.confirm_rejection(tx_id) is None,
    ensures
        ({
            let after = s.confirm(tx_id);
            &&& after.cancel_rejection(tx_id) is Some
            &&& after.confirm_rejection(tx_id) is None
            &&& after.confirm(tx_id) == after
        }),
{
    lemma_labels_distinct();
    lemma_find_entry(s.journal, tx_id);
    let i = find_entry(s.journal, tx_id)->0;
    lemma_find_entry_after_status(s, i, STATUS_CONFIRMED@, tx_id);
    let after = s.confirm(tx_id);
    assert(after.confirm(tx_id).journal =~= after.journal);
}

/// Signature determinism. The stamp is a function of the text and the
/// private key alone: the same text under the same key has the same stamp.
pub proof fn lemma_stamp_deterministic(
    data: Seq<char>,
    key: Seq<char>,
    same_data: Seq<char>,
    same_key: Seq<char>,
)
    requires
        data =~= same_data,
        key =~= same_key,
    ensures
        stamp(data, key) == stamp(same_data, same_key),
{
}

} // verus!

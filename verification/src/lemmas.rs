//! Facts about the journal's sums and lookups that the proofs of the
//! operations share.

use crate::model::{
    confirmed_volume, find_entry, is_first_match, total_debit, STATUS_CANCELLED, STATUS_CONFIRMED,
    STATUS_PENDING, TX_OFFLINE, TX_ONLINE, TX_TRANSFER,
};
use crate::records::TransactionView;
use vstd::prelude::*;

verus! {

/// The three statuses are three different texts, and so are the three types.
pub proof fn lemma_labels_distinct()
    ensures
        STATUS_PENDING@ != STATUS_CONFIRMED@,
        STATUS_PENDING@ != STATUS_CANCELLED@,
        STATUS_CONFIRMED@ != STATUS_CANCELLED@,
        TX_TRANSFER@ != TX_OFFLINE@,
        TX_TRANSFER@ != TX_ONLINE@,
        TX_OFFLINE@ != TX_ONLINE@,
{
    reveal_strlit("pending");
    reveal_strlit("confirmed");
    reveal_strlit("cancelled");
    reveal_strlit("transfer");
    reveal_strlit("offline");
    reveal_strlit("online");
    assert(STATUS_PENDING@.len() == 7);
    assert(STATUS_CONFIRMED@[1] == 'o');
    assert(STATUS_CANCELLED@[1] == 'a');
    assert(TX_TRANSFER@.len() == 8);
    assert(TX_OFFLINE@.len() == 7);
    assert(TX_ONLINE@.len() == 6);
}

/// Appending an entry adds its debit to the sum.
pub proof fn lemma_total_debit_push(journal: Seq<TransactionView>, entry: TransactionView)
    ensures
        total_debit(journal.push(entry)) == total_debit(journal) + entry.debit(),
{
    assert(journal.push(entry).drop_last() =~= journal);
}

/// Replacing an entry exchanges its debit in the sum.
pub proof fn lemma_total_debit_update(
    journal: Seq<TransactionView>,
    i: int,
    entry: TransactionView,
)
    requires
        0 <= i < journal.len(),
    ensures
        total_debit(journal.update(i, entry)) == total_debit(journal) - journal[i].debit()
            + entry.debit(),
    decreases journal.len(),
{
    if i == journal.len() - 1 {
        assert(journal.update(i, entry).drop_last() =~= journal.drop_last());
    } else {
        lemma_total_debit_update(journal.drop_last(), i, entry);
        assert(journal.update(i, entry).drop_last() =~= journal.drop_last().update(i, entry));
    }
}

/// Where no amount is negative, the sum is at least each entry's debit.
pub proof fn lemma_total_debit_covers(journal: Seq<TransactionView>, i: int)
    requires
        0 <= i < journal.len(),
        forall|k: int| 0 <= k < journal.len() ==> 0 <= (#[trigger] journal[k]).amount,
    ensures
        0 <= journal[i].debit() <= total_debit(journal),
    decreases journal.len(),
{
    lemma_total_debit_nonnegative(journal.drop_last());
    if i < journal.len() - 1 {
        lemma_total_debit_covers(journal.drop_last(), i);
    }
}

/// Where no amount is negative, the sum is not negative.
pub proof fn lemma_total_debit_nonnegative(journal: Seq<TransactionView>)
    requires
        forall|k: int| 0 <= k < journal.len() ==> 0 <= (#[trigger] journal[k]).amount,
    ensures
        0 <= total_debit(journal),
    decreases journal.len(),
{
    if journal.len() > 0 {
        lemma_total_debit_nonnegative(journal.drop_last());
    }
}

/// Appending an entry adds its confirmed amount to the volume.
pub proof fn lemma_confirmed_volume_push(journal: Seq<TransactionView>, entry: TransactionView)
    ensures
        confirmed_volume(journal.push(entry)) == confirmed_volume(journal)
            + entry.confirmed_amount(),
{
    assert(journal.push(entry).drop_last() =~= journal);
}

/// The first entry with an id is the one that a lookup finds.
pub proof fn lemma_find_entry_first(journal: Seq<TransactionView>, id: Seq<char>, i: int)
    requires
        is_first_match(journal, id, i),
    ensures
        find_entry(journal, id) == Some(i),
{
    let j = choose|j: int| is_first_match(journal, id, j);
    if j < i {
        assert(journal[j].id != id);
    } else if i < j {
        assert(journal[i].id != id);
    }
}

/// A lookup finds nothing exactly when no entry has the id, and what it
/// finds is the first entry with the id.
pub proof fn lemma_find_entry(journal: Seq<TransactionView>, id: Seq<char>)
    ensures
        match find_entry(journal, id) {
            Some(i) => is_first_match(journal, id, i),
            None => forall|k: int| 0 <= k < journal.len() ==> (#[trigger] journal[k]).id != id,
        },
{
    if find_entry(journal, id) is None {
        assert forall|k: int| 0 <= k < journal.len() implies (#[trigger] journal[k]).id
            != id by {
            if journal[k].id == id {
                lemma_some_match_has_first(journal, id, k);
            }
        }
    }
}

/// Where no entry has the id, a lookup finds nothing.
pub proof fn lemma_find_entry_none(journal: Seq<TransactionView>, id: Seq<char>)
    requires
        forall|k: int| 0 <= k < journal.len() ==> (#[trigger] journal[k]).id != id,
    ensures
        find_entry(journal, id) is None,
{
}

/// Filtering after appending an entry keeps it exactly when it passes.
pub proof fn lemma_filter_push<A>(s: Seq<A>, pred: spec_fn(A) -> bool, last: A)
    ensures
        s.push(last).filter(pred) == if pred(last) {
            s.filter(pred).push(last)
        } else {
            s.filter(pred)
        },
{
    reveal(Seq::filter);
    assert(s.push(last).drop_last() =~= s);
}

/// Where some entry has the id, some entry is the first to have it.
pub proof fn lemma_some_match_has_first(journal: Seq<TransactionView>, id: Seq<char>, k: int)
    requires
        0 <= k < journal.len(),
        journal[k].id == id,
    ensures
        exists|i: int| is_first_match(journal, id, i),
    decreases k,
{
    if exists|j: int| 0 <= j < k && (#[trigger] journal[j]).id == id {
        let j = choose|j: int| 0 <= j < k && (#[trigger] journal[j]).id == id;
        lemma_some_match_has_first(journal, id, j);
    } else {
        assert(is_first_match(journal, id, k));
    }
}

} // verus!

//! The word repository: the one place that says which statements the
//! service sends to its storage and how the answers become entries.

use crate::entry::{EntryView, WordEntry};
use crate::storage::{
    rows_outcome_view, FailureKind, FailureView, Row, RowView, Statement, StatementView,
    StorageFailure,
};
use vstd::prelude::*;
use vstd::string::StringExecFns;

verus! {

/// The cause given when a row holds NULL where an entry needs a text.
pub const NULL_COLUMN: &'static str = "a row of words holds NULL";

/// Whether a row holds both texts of an entry.
pub open spec fn row_complete(row: RowView) -> bool {
    row.0 is Some && row.1 is Some
}

/// The entry that a complete row holds.
pub open spec fn row_entry(row: RowView) -> EntryView {
    EntryView { word: row.0->0, meaning: row.1->0 }
}

/// Whether every row is complete.
pub open spec fn rows_complete(rows: Seq<RowView>) -> bool {
    forall|i: int| 0 <= i < rows.len() ==> row_complete(#[trigger] rows[i])
}

/// The entries of complete rows, one for one and in the rows' order.
pub open spec fn rows_entries(rows: Seq<RowView>) -> Seq<EntryView> {
    Seq::new(rows.len(), |i: int| row_entry(rows[i]))
}

/// The result of listing the words, given what the storage answered to
/// the query: every row as an entry, or a failure and no entry at all.
pub open spec fn listed(outcome: Result<Seq<RowView>, FailureView>) -> Result<
    Seq<EntryView>,
    FailureView,
> {
    match outcome {
        Err(failure) => Err(failure),
        Ok(rows) => if rows_complete(rows) {
            Ok(rows_entries(rows))
        } else {
            Err(FailureView { kind: FailureKind::Mapping, detail: NULL_COLUMN@ })
        },
    }
}

/// A listing as a mathematical value.
pub open spec fn listing_view(listing: Result<Vec<WordEntry>, StorageFailure>) -> Result<
    Seq<EntryView>,
    FailureView,
> {
    match listing {
        Ok(entries) => Ok(entries.deep_view()),
        Err(failure) => Err(failure@),
    }
}

/// The statement that reads every entry.
pub fn select_words() -> (statement: Statement)
    ensures
        statement@ == StatementView::SelectAll,
{
    Statement::SelectAll
}

/// The statement that appends `entry` to the table. The entry travels as
/// bound values; the statement's text is the same for every entry.
pub fn insert_word(entry: WordEntry) -> (statement: Statement)
    ensures
        statement@ == StatementView::Insert(entry@),
{
    Statement::Insert(entry)
}

/// Turns the storage's answer to [`select_words`] into the list of words.
///
/// A failure of the storage is passed on as it is. Rows become entries one
/// for one, in the order in which they came; if any row holds NULL the
/// whole listing fails as a mapping failure.
pub fn list_words(outcome: Result<Vec<Row>, StorageFailure>) -> (listing: Result<
    Vec<WordEntry>,
    StorageFailure,
>)
    ensures
        listing_view(listing) == listed(rows_outcome_view(outcome)),
{
    let rows = match outcome {
        Ok(rows) => rows,
        Err(failure) => {
            return Err(failure);
        },
    };
    let ghost all = rows.deep_view();
    let mut entries: Vec<WordEntry> = Vec::new();
    let mut i: usize = 0;
    while i < rows.len()
        invariant
            i <= rows.len(),
            all == rows.deep_view(),
            rows_outcome_view(outcome) == Ok::<Seq<RowView>, FailureView>(all),
            entries.len() == i,
            forall|j: int| 0 <= j < i ==> row_complete(#[trigger] all[j]),
            forall|j: int| 0 <= j < i ==> (#[trigger] entries[j])@ == row_entry(all[j]),
        decreases rows.len() - i,
    {
        let row = &rows[i];
        match (&row.0, &row.1) {
            (Some(word), Some(meaning)) => {
                entries.push(WordEntry { word: word.clone(), meaning: meaning.clone() });
            },
            _ => {
                assert(!row_complete(all[i as int]));
                return Err(
                    StorageFailure {
                        kind: FailureKind::Mapping,
                        detail: String::from_str(NULL_COLUMN),
                    },
                );
            },
        }
        i = i + 1;
    }
    assert(rows_complete(all));
    assert(entries.deep_view() =~= rows_entries(all));
    Ok(entries)
}

} // verus!

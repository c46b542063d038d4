//! A model of the storage as the service sees it, and the laws of the
//! service that hold over that model.
//!
//! The table is a multiset of entries: rows carry no identifier and the
//! storage promises no order. A working storage appends a row for each
//! insert, and answers the select with the table's rows in some order.

use crate::entry::EntryView;
use crate::error::{STATUS_BAD_REQUEST, STATUS_INTERNAL_SERVER_ERROR, STATUS_OK};
use crate::handlers::{
    add_word_response_view, add_word_view, body_entry, get_words_response_view, AddWordView,
    BodyView, CreateBodyView, ResponseView, FETCH_FAILED, INSERT_FAILED,
};
use crate::repository::{listed, rows_complete, rows_entries};
use crate::storage::{FailureView, RowView, StatementView};
use vstd::multiset::Multiset;
use vstd::prelude::*;

verus! {

/// The table after a working storage has carried out `statement`.
pub open spec fn table_after(table: Multiset<EntryView>, statement: StatementView) -> Multiset<
    EntryView,
> {
    match statement {
        StatementView::SelectAll => table,
        StatementView::Insert(entry) => table.insert(entry),
    }
}

/// The table after the first part of a `POST /api/words` has been acted
/// on: a rejected request sends the storage nothing.
pub open spec fn table_after_add_word(table: Multiset<EntryView>, step: AddWordView) -> Multiset<
    EntryView,
> {
    match step {
        AddWordView::Reject(_) => table,
        AddWordView::Store { statement, .. } => table_after(table, statement),
    }
}

/// The table after a `POST /api/words` for each of `entries` has been
/// acted on, first to last.
pub open spec fn table_after_posts(table: Multiset<EntryView>, entries: Seq<EntryView>) -> Multiset<
    EntryView,
>
    decreases entries.len(),
{
    if entries.len() == 0 {
        table
    } else {
        table_after_add_word(
            table_after_posts(table, entries.drop_last()),
            add_word_view(body_of(entries.last())),
        )
    }
}

/// Whether `rows` is an answer that a working storage may give to the
/// select: the rows of `table`, each as often as the table holds it, in
/// any order.
pub open spec fn answers(table: Multiset<EntryView>, rows: Seq<RowView>) -> bool {
    rows_complete(rows) && rows_entries(rows).to_multiset() == table
}

/// The entries that a response lists, without their order; nothing if the
/// response is no listing.
pub open spec fn listed_entries(response: ResponseView) -> Multiset<EntryView> {
    match response.body {
        BodyView::Entries(entries) => entries.to_multiset(),
        _ => Multiset::empty(),
    }
}

/// The request body that holds the entry.
pub open spec fn body_of(entry: EntryView) -> CreateBodyView {
    CreateBodyView::Fields { word: Some(entry.word), meaning: Some(entry.meaning) }
}

/// A `GET /api/words` over a working storage answers 200 and lists the
/// table: every row once per occurrence, and nothing else.
pub proof fn lemma_listing_shows_table(table: Multiset<EntryView>, rows: Seq<RowView>)
    requires
        answers(table, rows),
    ensures
        get_words_response_view(Ok(rows)) == (ResponseView {
            status: STATUS_OK,
            body: BodyView::Entries(rows_entries(rows)),
        }),
        listed_entries(get_words_response_view(Ok(rows))) == table,
        rows_entries(rows).len() == table.len(),
{
    broadcast use vstd::seq_lib::group_to_multiset_ensures;

}

/// The service never updates or deletes: whatever statement it sends, the
/// table keeps every row it had.
pub proof fn lemma_rows_are_never_lost(table: Multiset<EntryView>, statement: StatementView)
    ensures
        table.subset_of(table_after(table, statement)),
        table.len() <= table_after(table, statement).len(),
{
    broadcast use vstd::multiset::group_multiset_properties;
    broadcast use vstd::multiset::group_multiset_axioms;

}

/// The status tells the client whether the storage did its part: a
/// listing answers 200 exactly when every row came back as an entry, a
/// post of an entry exactly when the storage stored the row.
pub proof fn lemma_status_tells_success(
    rows_outcome: Result<Seq<RowView>, FailureView>,
    insert_outcome: Result<(), FailureView>,
)
    ensures
        get_words_response_view(rows_outcome).status == STATUS_OK <==> listed(rows_outcome) is Ok,
        listed(rows_outcome) is Ok <==> (rows_outcome matches Ok(rows) && rows_complete(rows)),
        add_word_response_view(insert_outcome).status == STATUS_OK <==> insert_outcome is Ok,
{
}

/// A `POST /api/words` with an entry in its body logs the entry, sends
/// the insert of that entry, and, once the storage has done it, answers
/// 200 with an empty body; the table then holds the entry once more.
pub proof fn lemma_stored_entry_is_added(table: Multiset<EntryView>, entry: EntryView)
    ensures
        add_word_view(body_of(entry)) is Store,
        add_word_view(body_of(entry))->statement == StatementView::Insert(entry),
        add_word_response_view(Ok(())) == (ResponseView {
            status: STATUS_OK,
            body: BodyView::Empty,
        }),
        table_after_add_word(table, add_word_view(body_of(entry))) == table.insert(entry),
        table_after_add_word(table, add_word_view(body_of(entry))).count(entry) == table.count(
            entry,
        ) + 1,
        table_after_add_word(table, add_word_view(body_of(entry))).len() == table.len() + 1,
{
    broadcast use vstd::multiset::group_multiset_properties;

}

/// Round trip: after an entry has been posted, a listing holds it once
/// more than the table did before; exactly once if the table did not
/// hold it.
pub proof fn lemma_round_trip(table: Multiset<EntryView>, entry: EntryView, rows: Seq<RowView>)
    requires
        answers(table_after_add_word(table, add_word_view(body_of(entry))), rows),
    ensures
        get_words_response_view(Ok(rows)).status == STATUS_OK,
        listed_entries(get_words_response_view(Ok(rows))).count(entry) == table.count(entry) + 1,
        rows_entries(rows).contains(entry),
{
    broadcast use vstd::seq_lib::group_to_multiset_ensures;

    let stored = table_after_add_word(table, add_word_view(body_of(entry)));
    lemma_stored_entry_is_added(table, entry);
    lemma_listing_shows_table(stored, rows);
}

/// Reading is idempotent: two listings with no write between them hold
/// the same entries equally often, and a listing leaves the table as it
/// was.
pub proof fn lemma_reads_are_idempotent(
    table: Multiset<EntryView>,
    first: Seq<RowView>,
    second: Seq<RowView>,
)
    requires
        answers(table, first),
        answers(table_after(table, StatementView::SelectAll), second),
    ensures
        table_after(table, StatementView::SelectAll) == table,
        get_words_response_view(Ok(first)).status == get_words_response_view(Ok(second)).status,
        listed_entries(get_words_response_view(Ok(first))) == listed_entries(
            get_words_response_view(Ok(second)),
        ),
        rows_entries(first).len() == rows_entries(second).len(),
{
    lemma_listing_shows_table(table, first);
    lemma_listing_shows_table(table, second);
}

/// No deduplication: posting the same entry twice adds two rows, and a
/// listing then holds the entry twice more than before.
pub proof fn lemma_no_dedup(table: Multiset<EntryView>, entry: EntryView, rows: Seq<RowView>)
    requires
        answers(
            table_after_add_word(
                table_after_add_word(table, add_word_view(body_of(entry))),
                add_word_view(body_of(entry)),
            ),
            rows,
        ),
    ensures
        listed_entries(get_words_response_view(Ok(rows))).count(entry) == table.count(entry) + 2,
        rows_entries(rows).len() == table.len() + 2,
{
    let once = table_after_add_word(table, add_word_view(body_of(entry)));
    let twice = table_after_add_word(once, add_word_view(body_of(entry)));
    lemma_stored_entry_is_added(table, entry);
    lemma_stored_entry_is_added(once, entry);
    lemma_listing_shows_table(twice, rows);
}

/// A malformed body is rejected with status 400 and reaches no storage:
/// the table is as it was.
pub proof fn lemma_malformed_body_changes_nothing(table: Multiset<EntryView>, body: CreateBodyView)
    requires
        body_entry(body) is None,
    ensures
        add_word_view(body) is Reject,
        add_word_view(body)->Reject_0.status == STATUS_BAD_REQUEST,
        table_after_add_word(table, add_word_view(body)) == table,
{
}

/// A body is malformed exactly when it is unreadable or lacks one of the
/// two fields.
pub proof fn lemma_malformed_bodies(body: CreateBodyView)
    ensures
        body_entry(body) is None <==> (body is Unreadable || body->word is None || body->meaning
            is None),
        body_entry(body) matches Some(entry) ==> body == body_of(entry),
{
}

/// An empty table is listed as an empty array with status 200.
pub proof fn lemma_empty_table_lists_nothing(rows: Seq<RowView>)
    requires
        answers(Multiset::empty(), rows),
    ensures
        get_words_response_view(Ok(rows)) == (ResponseView {
            status: STATUS_OK,
            body: BodyView::Entries(Seq::empty()),
        }),
{
    broadcast use vstd::seq_lib::group_to_multiset_ensures;
    broadcast use vstd::multiset::group_multiset_axioms;

    lemma_listing_shows_table(Multiset::empty(), rows);
    assert(rows_entries(rows).len() == 0);
    assert(rows_entries(rows) =~= Seq::empty());
}

/// A storage failure is answered with status 500 and a message that names
/// the operation alone: whatever the failure holds, the response is the
/// same, so nothing of the failure reaches the client.
pub proof fn lemma_storage_failure_is_opaque(failure: FailureView, other: FailureView)
    ensures
        get_words_response_view(Err(failure)) == (ResponseView {
            status: STATUS_INTERNAL_SERVER_ERROR,
            body: BodyView::Text(FETCH_FAILED@),
        }),
        add_word_response_view(Err(failure)) == (ResponseView {
            status: STATUS_INTERNAL_SERVER_ERROR,
            body: BodyView::Text(INSERT_FAILED@),
        }),
        get_words_response_view(Err(failure)) == get_words_response_view(Err(other)),
        add_word_response_view(Err(failure)) == add_word_response_view(Err(other)),
{
}

/// Rows that are no entries are answered like any other storage failure.
pub proof fn lemma_mapping_failure_is_opaque(rows: Seq<RowView>, failure: FailureView)
    requires
        !rows_complete(rows),
    ensures
        get_words_response_view(Ok(rows)) == get_words_response_view(Err(failure)),
{
}

/// Posting a sequence of entries adds to the table exactly those entries,
/// each as often as the sequence holds it.
pub proof fn lemma_posts_add_up(table: Multiset<EntryView>, entries: Seq<EntryView>)
    ensures
        table_after_posts(table, entries) == table.add(entries.to_multiset()),
        table_after_posts(table, entries).len() == table.len() + entries.len(),
    decreases entries.len(),
{
    broadcast use vstd::seq_lib::group_to_multiset_ensures;
    broadcast use vstd::multiset::group_multiset_axioms;

    if entries.len() == 0 {
        assert(entries.to_multiset() =~= Multiset::empty());
        assert(table.add(entries.to_multiset()) =~= table);
    } else {
        let front = entries.drop_last();
        lemma_posts_add_up(table, front);
        lemma_stored_entry_is_added(table_after_posts(table, front), entries.last());
        assert(front.push(entries.last()) =~= entries);
        assert(entries.to_multiset() =~= front.to_multiset().insert(entries.last()));
        assert(table.add(front.to_multiset()).insert(entries.last()) =~= table.add(
            entries.to_multiset(),
        ));
    }
}

/// Posts commute: the same posts, stored in any two orders, leave the
/// same table.
pub proof fn lemma_posts_commute(
    table: Multiset<EntryView>,
    one_order: Seq<EntryView>,
    other_order: Seq<EntryView>,
)
    requires
        one_order.to_multiset() == other_order.to_multiset(),
    ensures
        table_after_posts(table, one_order) == table_after_posts(table, other_order),
{
    lemma_posts_add_up(table, one_order);
    lemma_posts_add_up(table, other_order);
}

/// No lost writes: after posts of distinct entries, in whatever order the
/// storage carried them out, a listing has one row more for each post and
/// holds each posted entry once more than the table did.
pub proof fn lemma_no_lost_writes(
    table: Multiset<EntryView>,
    entries: Seq<EntryView>,
    rows: Seq<RowView>,
)
    requires
        entries.no_duplicates(),
        answers(table_after_posts(table, entries), rows),
    ensures
        get_words_response_view(Ok(rows)).status == STATUS_OK,
        rows_entries(rows).len() == table.len() + entries.len(),
        forall|i: int|
            0 <= i < entries.len() ==> listed_entries(get_words_response_view(Ok(rows))).count(
                #[trigger] entries[i],
            ) == table.count(entries[i]) + 1,
{
    broadcast use vstd::seq_lib::group_to_multiset_ensures;
    broadcast use vstd::multiset::group_multiset_axioms;

    lemma_posts_add_up(table, entries);
    lemma_listing_shows_table(table_after_posts(table, entries), rows);
    entries.lemma_multiset_has_no_duplicates();
    assert forall|i: int| 0 <= i < entries.len() implies listed_entries(
        get_words_response_view(Ok(rows)),
    ).count(#[trigger] entries[i]) == table.count(entries[i]) + 1 by {
        assert(entries.contains(entries[i]));
        assert(entries.to_multiset().contains(entries[i]));
    }
}

} // verus!

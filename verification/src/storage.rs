//! What passes between the service and its storage: the statements that
//! the service sends, and the rows and failures that come back.

use crate::entry::{EntryView, WordEntry};
use vstd::prelude::*;

verus! {

/// The text of the query that reads every entry.
pub const SELECT_WORDS: &'static str = "select word, meaning from words";

/// The text of the insert; each `?` stands for one bound parameter.
pub const INSERT_WORD: &'static str = "insert into words(word, meaning) values (?, ?)";

/// A statement for the storage to carry out.
#[derive(Clone, Debug, PartialEq, Eq)]
pub enum Statement {
    /// Read every row of the table.
    SelectAll,
    /// Append one row that holds the entry.
    Insert(WordEntry),
}

/// The mathematical value of a [`Statement`].
pub ghost enum StatementView {
    SelectAll,
    Insert(EntryView),
}

impl View for Statement {
    type V = StatementView;

    open spec fn view(&self) -> StatementView {
        match self {
            Statement::SelectAll => StatementView::SelectAll,
            Statement::Insert(entry) => StatementView::Insert(entry@),
        }
    }
}

/// The SQL text of a statement. It depends on the kind of statement alone,
/// never on the entry that an insert carries.
pub open spec fn statement_text(statement: StatementView) -> Seq<char> {
    match statement {
        StatementView::SelectAll => SELECT_WORDS@,
        StatementView::Insert(_) => INSERT_WORD@,
    }
}

/// The values bound to the placeholders of a statement's text, in order.
pub open spec fn statement_params(statement: StatementView) -> Seq<Seq<char>> {
    match statement {
        StatementView::SelectAll => Seq::empty(),
        StatementView::Insert(entry) => seq![entry.word, entry.meaning],
    }
}

/// How many placeholders a SQL text holds: the occurrences of `?` in it.
pub open spec fn placeholders(text: Seq<char>) -> nat
    decreases text.len(),
{
    if text.len() == 0 {
        0
    } else if text.last() == '?' {
        placeholders(text.drop_last()) + 1
    } else {
        placeholders(text.drop_last())
    }
}

/// Every statement binds exactly one value to each placeholder of its text:
/// an entry reaches the storage as bound values, never as part of the text.
pub proof fn lemma_params_fill_placeholders(statement: StatementView)
    ensures
        placeholders(statement_text(statement)) == statement_params(statement).len(),
{
    reveal_strlit("select word, meaning from words");
    reveal_strlit("insert into words(word, meaning) values (?, ?)");
    reveal_with_fuel(placeholders, 50);
}

impl Statement {
    /// The SQL text to hand to the storage.
    pub fn sql(&self) -> (text: &'static str)
        ensures
            text@ == statement_text(self@),
    {
        match self {
            Statement::SelectAll => SELECT_WORDS,
            Statement::Insert(_) => INSERT_WORD,
        }
    }

    /// The values to bind to the text's placeholders, first to last.
    pub fn params(&self) -> (values: Vec<String>)
        ensures
            values.deep_view() == statement_params(self@),
    {
        let mut values: Vec<String> = Vec::new();
        match self {
            Statement::SelectAll => {},
            Statement::Insert(entry) => {
                values.push(entry.word.clone());
                values.push(entry.meaning.clone());
            },
        }
        assert(values.deep_view() =~= statement_params(self@));
        values
    }
}

/// One row as the storage hands it back: the columns `word` and `meaning`,
/// each of which may be NULL.
pub type Row = (Option<String>, Option<String>);

/// The mathematical value of a [`Row`].
pub type RowView = (Option<Seq<char>>, Option<Seq<char>>);

/// Where a storage call failed.
#[derive(Clone, Copy, Debug, PartialEq, Eq)]
pub enum FailureKind {
    /// No connection could be had from the pool.
    Connection,
    /// The storage could not carry out the statement.
    Execution,
    /// A row came back that is no entry.
    Mapping,
}

/// A failed storage call: its kind, and the cause in words for the
/// server's own diagnostics.
#[derive(Clone, Debug, PartialEq, Eq)]
pub struct StorageFailure {
    pub kind: FailureKind,
    pub detail: String,
}

/// The mathematical value of a [`StorageFailure`].
pub ghost struct FailureView {
    pub kind: FailureKind,
    pub detail: Seq<char>,
}

impl View for StorageFailure {
    type V = FailureView;

    open spec fn view(&self) -> FailureView {
        FailureView { kind: self.kind, detail: self.detail@ }
    }
}

/// What came of a query for rows, as a mathematical value.
pub open spec fn rows_outcome_view(outcome: Result<Vec<Row>, StorageFailure>) -> Result<
    Seq<RowView>,
    FailureView,
> {
    match outcome {
        Ok(rows) => Ok(rows.deep_view()),
        Err(failure) => Err(failure@),
    }
}

/// What came of a statement that returns no rows, as a mathematical value.
pub open spec fn done_outcome_view(outcome: Result<(), StorageFailure>) -> Result<(), FailureView> {
    match outcome {
        Ok(_) => Ok(()),
        Err(failure) => Err(failure@),
    }
}

} // verus!

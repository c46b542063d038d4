//! The two request handlers. Each is split where it waits for the
//! storage: a first function says what to ask of the storage, a second
//! turns the storage's answer into the response.

use crate::entry::{EntryView, WordEntry};
use crate::error::{error_status, ServiceError, ServiceErrorView, STATUS_OK};
use crate::repository::{insert_word, list_words, listed, select_words};
use crate::storage::{
    done_outcome_view, rows_outcome_view, FailureView, Row, RowView, Statement, StatementView,
    StorageFailure,
};
use vstd::prelude::*;
use vstd::string::StringExecFns;

verus! {

/// What the client is told when the words cannot be read.
pub const FETCH_FAILED: &'static str = "Failed to fetch words";

/// What the client is told when a word cannot be stored.
pub const INSERT_FAILED: &'static str = "Failed to insert word";

/// What the client is told when the request body is no entry.
pub const MALFORMED_BODY: &'static str = "Malformed request body";

/// The path that both operations are served on.
pub const WORDS_PATH: &'static str = "/api/words";

/// The method of the operation that lists the words.
pub const METHOD_GET: &'static str = "GET";

/// The method of the operation that adds a word.
pub const METHOD_POST: &'static str = "POST";

/// The two operations of the service.
#[derive(Clone, Copy, Debug, PartialEq, Eq)]
pub enum Operation {
    /// `GET /api/words`
    ListWords,
    /// `POST /api/words`
    CreateWord,
}

/// The HTTP method that an operation is served on.
pub open spec fn operation_method(operation: Operation) -> Seq<char> {
    match operation {
        Operation::ListWords => METHOD_GET@,
        Operation::CreateWord => METHOD_POST@,
    }
}

impl Operation {
    /// The HTTP method that this operation is served on.
    pub fn method(&self) -> (method: &'static str)
        ensures
            method@ == operation_method(*self),
    {
        match self {
            Operation::ListWords => METHOD_GET,
            Operation::CreateWord => METHOD_POST,
        }
    }

    /// The path that this operation is served on.
    pub fn path(&self) -> (path: &'static str)
        ensures
            path@ == WORDS_PATH@,
    {
        WORDS_PATH
    }
}

/// The body of a response.
#[derive(Clone, Debug, PartialEq, Eq)]
pub enum Body {
    /// No body.
    Empty,
    /// A plain message.
    Text(String),
    /// Entries, to be written as a JSON array of `{word, meaning}` objects.
    Entries(Vec<WordEntry>),
}

/// The mathematical value of a [`Body`].
pub ghost enum BodyView {
    Empty,
    Text(Seq<char>),
    Entries(Seq<EntryView>),
}

impl View for Body {
    type V = BodyView;

    open spec fn view(&self) -> BodyView {
        match self {
            Body::Empty => BodyView::Empty,
            Body::Text(text) => BodyView::Text(text@),
            Body::Entries(entries) => BodyView::Entries(entries.deep_view()),
        }
    }
}

/// An HTTP response: its status and its body.
#[derive(Clone, Debug, PartialEq, Eq)]
pub struct Response {
    pub status: u16,
    pub body: Body,
}

/// The mathematical value of a [`Response`].
pub ghost struct ResponseView {
    pub status: u16,
    pub body: BodyView,
}

impl View for Response {
    type V = ResponseView;

    open spec fn view(&self) -> ResponseView {
        ResponseView { status: self.status, body: self.body@ }
    }
}

/// The message that tells the client of an error in `operation`. For a
/// storage failure it names the operation and nothing of the failure.
pub open spec fn error_message(operation: Operation, error: ServiceErrorView) -> Seq<char> {
    match error {
        ServiceErrorView::MalformedRequest => MALFORMED_BODY@,
        ServiceErrorView::Storage(_) => match operation {
            Operation::ListWords => FETCH_FAILED@,
            Operation::CreateWord => INSERT_FAILED@,
        },
    }
}

/// The response to a request that ended in `error`.
pub open spec fn error_response_view(operation: Operation, error: ServiceErrorView) -> ResponseView {
    ResponseView {
        status: error_status(error),
        body: BodyView::Text(error_message(operation, error)),
    }
}

/// Turns an error into the response for the client: the one place where
/// an error becomes a status and a message.
pub fn error_response(operation: Operation, error: &ServiceError) -> (response: Response)
    ensures
        response@ == error_response_view(operation, error@),
{
    let message = match error {
        ServiceError::MalformedRequest => MALFORMED_BODY,
        ServiceError::Storage(_) => match operation {
            Operation::ListWords => FETCH_FAILED,
            Operation::CreateWord => INSERT_FAILED,
        },
    };
    Response { status: error.status(), body: Body::Text(String::from_str(message)) }
}

/// The response to `GET /api/words`, given what the storage answered to
/// the query for all rows.
pub open spec fn get_words_response_view(outcome: Result<Seq<RowView>, FailureView>) -> ResponseView {
    match listed(outcome) {
        Ok(entries) => ResponseView { status: STATUS_OK, body: BodyView::Entries(entries) },
        Err(failure) => error_response_view(
            Operation::ListWords,
            ServiceErrorView::Storage(failure),
        ),
    }
}

/// Handles `GET /api/words`, first part: the statement to send.
pub fn get_words() -> (statement: Statement)
    ensures
        statement@ == StatementView::SelectAll,
{
    select_words()
}

/// Handles `GET /api/words`, second part: the response, given the
/// storage's answer to the statement of [`get_words`].
pub fn get_words_response(outcome: Result<Vec<Row>, StorageFailure>) -> (response: Response)
    ensures
        response@ == get_words_response_view(rows_outcome_view(outcome)),
{
    match list_words(outcome) {
        Ok(entries) => Response { status: STATUS_OK, body: Body::Entries(entries) },
        Err(failure) => error_response(Operation::ListWords, &ServiceError::Storage(failure)),
    }
}

/// What the JSON decoder made of the body of a `POST /api/words`.
#[derive(Clone, Debug, PartialEq, Eq)]
pub enum CreateBody {
    /// Not JSON, not an object, or a field that is no string.
    Unreadable,
    /// An object; each field is given if the object has it.
    Fields { word: Option<String>, meaning: Option<String> },
}

/// The mathematical value of a [`CreateBody`].
pub ghost enum CreateBodyView {
    Unreadable,
    Fields { word: Option<Seq<char>>, meaning: Option<Seq<char>> },
}

impl View for CreateBody {
    type V = CreateBodyView;

    open spec fn view(&self) -> CreateBodyView {
        match self {
            CreateBody::Unreadable => CreateBodyView::Unreadable,
            CreateBody::Fields { word, meaning } => CreateBodyView::Fields {
                word: word.deep_view(),
                meaning: meaning.deep_view(),
            },
        }
    }
}

/// The entry that a request body holds: one exists exactly when the body
/// is an object with both `word` and `meaning`.
pub open spec fn body_entry(body: CreateBodyView) -> Option<EntryView> {
    match body {
        CreateBodyView::Fields { word: Some(word), meaning: Some(meaning) } => Some(
            EntryView { word, meaning },
        ),
        _ => None,
    }
}

/// The diagnostic line written for each entry received.
pub open spec fn log_line_text(entry: EntryView) -> Seq<char> {
    "add_word "@ + entry.word + " "@ + entry.meaning
}

/// What `POST /api/words` does before it turns to the storage.
#[derive(Clone, Debug, PartialEq, Eq)]
pub enum AddWord {
    /// Answer at once; nothing is sent to the storage.
    Reject(Response),
    /// Write the line to the log, send the statement to the storage, and
    /// answer with [`add_word_response`].
    Store { log_line: String, statement: Statement },
}

/// The mathematical value of an [`AddWord`].
pub ghost enum AddWordView {
    Reject(ResponseView),
    Store { log_line: Seq<char>, statement: StatementView },
}

impl View for AddWord {
    type V = AddWordView;

    open spec fn view(&self) -> AddWordView {
        match self {
            AddWord::Reject(response) => AddWordView::Reject(response@),
            AddWord::Store { log_line, statement } => AddWordView::Store {
                log_line: log_line@,
                statement: statement@,
            },
        }
    }
}

/// The first part of `POST /api/words` as a function of the body.
pub open spec fn add_word_view(body: CreateBodyView) -> AddWordView {
    match body_entry(body) {
        Some(entry) => AddWordView::Store {
            log_line: log_line_text(entry),
            statement: StatementView::Insert(entry),
        },
        None => AddWordView::Reject(
            error_response_view(Operation::CreateWord, ServiceErrorView::MalformedRequest),
        ),
    }
}

/// The response to `POST /api/words` once the storage has answered.
pub open spec fn add_word_response_view(outcome: Result<(), FailureView>) -> ResponseView {
    match outcome {
        Ok(_) => ResponseView { status: STATUS_OK, body: BodyView::Empty },
        Err(failure) => error_response_view(
            Operation::CreateWord,
            ServiceErrorView::Storage(failure),
        ),
    }
}

/// Reads the entry out of a request body, or says that the body is
/// malformed.
pub fn decode_entry(body: CreateBody) -> (decoded: Result<WordEntry, ServiceError>)
    ensures
        match body_entry(body@) {
            Some(entry) => decoded is Ok && decoded->Ok_0@ == entry,
            None => decoded == Err::<WordEntry, ServiceError>(ServiceError::MalformedRequest),
        },
{
    match body {
        CreateBody::Fields { word: Some(word), meaning: Some(meaning) } => Ok(
            WordEntry { word, meaning },
        ),
        _ => Err(ServiceError::MalformedRequest),
    }
}

/// The diagnostic line for an entry received.
pub fn log_line(entry: &WordEntry) -> (line: String)
    ensures
        line@ == log_line_text(entry@),
{
    let mut line = String::from_str("add_word ");
    line.append(entry.word.as_str());
    line.append(" ");
    line.append(entry.meaning.as_str());
    line
}

/// Handles `POST /api/words`, first part: rejects a malformed body with
/// status 400, and for an entry gives the log line and the insert.
pub fn add_word(body: CreateBody) -> (step: AddWord)
    ensures
        step@ == add_word_view(body@),
{
    match decode_entry(body) {
        Ok(entry) => {
            let line = log_line(&entry);
            AddWord::Store { log_line: line, statement: insert_word(entry) }
        },
        Err(error) => AddWord::Reject(error_response(Operation::CreateWord, &error)),
    }
}

/// Handles `POST /api/words`, second part: the response, given the
/// storage's answer to the insert.
pub fn add_word_response(outcome: Result<(), StorageFailure>) -> (response: Response)
    ensures
        response@ == add_word_response_view(done_outcome_view(outcome)),
{
    match outcome {
        Ok(_) => Response { status: STATUS_OK, body: Body::Empty },
        Err(failure) => error_response(Operation::CreateWord, &ServiceError::Storage(failure)),
    }
}

} // verus!

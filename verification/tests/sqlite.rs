use sqlx::sqlite::SqlitePoolOptions;
use sqlx::SqlitePool;
use std::future::Future;
use wordbook::entry::WordEntry;
use wordbook::handlers::{
    add_word, add_word_response, get_words, get_words_response, AddWord, Body, CreateBody,
    Response,
};
use wordbook::storage::{FailureKind, Row, Statement, StorageFailure};

fn block_on<F: Future>(future: F) -> F::Output {
    tokio::runtime::Builder::new_current_thread().enable_all().build().unwrap().block_on(future)
}

fn failure(error: sqlx::Error) -> StorageFailure {
    StorageFailure { kind: FailureKind::Execution, detail: error.to_string() }
}

/// A database in memory with an empty table of words. The pool holds one
/// connection, so that every statement meets the same database.
async fn open() -> SqlitePool {
    let pool = SqlitePoolOptions::new().max_connections(1).connect("sqlite::memory:").await.unwrap();
    sqlx::query("create table words(word text, meaning text)").execute(&pool).await.unwrap();
    pool
}

async fn select(pool: &SqlitePool, statement: &Statement) -> Result<Vec<Row>, StorageFailure> {
    assert!(statement.params().is_empty());
    sqlx::query_as::<_, Row>(statement.sql()).fetch_all(pool).await.map_err(failure)
}

async fn execute(pool: &SqlitePool, statement: &Statement) -> Result<(), StorageFailure> {
    let mut query = sqlx::query(statement.sql());
    for value in statement.params() {
        query = query.bind(value);
    }
    query.execute(pool).await.map(|_| ()).map_err(failure)
}

async fn get(pool: &SqlitePool) -> Response {
    let outcome = select(pool, &get_words()).await;
    get_words_response(outcome)
}

async fn post(pool: &SqlitePool, word: &str, meaning: &str) -> Response {
    let body = CreateBody::Fields { word: Some(word.to_string()), meaning: Some(meaning.to_string()) };
    match add_word(body) {
        AddWord::Reject(response) => response,
        AddWord::Store { statement, .. } => add_word_response(execute(pool, &statement).await),
    }
}

fn entries(response: Response) -> Vec<WordEntry> {
    assert_eq!(response.status, 200);
    match response.body {
        Body::Entries(entries) => entries,
        other => panic!("no listing in {:?}", other),
    }
}

fn entry(word: &str, meaning: &str) -> WordEntry {
    WordEntry { word: word.to_string(), meaning: meaning.to_string() }
}

#[test]
fn round_trip() {
    block_on(async {
        let pool = open().await;
        let posted = post(&pool, "ephemeral", "lasting a short time").await;
        assert_eq!(posted, Response { status: 200, body: Body::Empty });
        let listed = entries(get(&pool).await);
        let wanted = entry("ephemeral", "lasting a short time");
        assert_eq!(listed.iter().filter(|e| **e == wanted).count(), 1);
        assert_eq!(listed, vec![wanted]);
    });
}

#[test]
fn reads_are_idempotent() {
    block_on(async {
        let pool = open().await;
        post(&pool, "one", "1").await;
        post(&pool, "two", "2").await;
        let first = get(&pool).await;
        let second = get(&pool).await;
        assert_eq!(first, second);
        assert_eq!(entries(first).len(), 2);
    });
}

#[test]
fn same_entry_twice_is_two_rows() {
    block_on(async {
        let pool = open().await;
        assert_eq!(post(&pool, "set", "a collection").await.status, 200);
        assert_eq!(post(&pool, "set", "a collection").await.status, 200);
        let listed = entries(get(&pool).await);
        assert_eq!(listed, vec![entry("set", "a collection"), entry("set", "a collection")]);
    });
}

#[test]
fn malformed_body_adds_no_row() {
    block_on(async {
        let pool = open().await;
        post(&pool, "kept", "stays").await;
        let before = entries(get(&pool).await).len();
        let step = add_word(CreateBody::Fields { word: Some("only".to_string()), meaning: None });
        match step {
            AddWord::Reject(response) => assert_eq!(response.status, 400),
            AddWord::Store { .. } => panic!("a body without meaning was accepted"),
        }
        assert_eq!(entries(get(&pool).await).len(), before);
    });
}

#[test]
fn fresh_table_lists_nothing() {
    block_on(async {
        let pool = open().await;
        assert_eq!(get(&pool).await, Response { status: 200, body: Body::Entries(Vec::new()) });
    });
}

#[test]
fn closed_storage_is_500_on_both_operations() {
    block_on(async {
        let pool = open().await;
        post(&pool, "before", "the storage went away").await;
        pool.close().await;
        assert_eq!(
            get(&pool).await,
            Response { status: 500, body: Body::Text("Failed to fetch words".to_string()) }
        );
        assert_eq!(
            post(&pool, "after", "never stored").await,
            Response { status: 500, body: Body::Text("Failed to insert word".to_string()) }
        );
    });
}

#[test]
fn missing_table_is_500_on_both_operations() {
    block_on(async {
        let pool = open().await;
        sqlx::query("drop table words").execute(&pool).await.unwrap();
        assert_eq!(get(&pool).await.status, 500);
        assert_eq!(post(&pool, "lost", "no table").await.status, 500);
    });
}

#[test]
fn concurrent_inserts_lose_no_write() {
    block_on(async {
        let pool = open().await;
        post(&pool, "first", "was there before").await;
        let count: usize = 20;
        let mut tasks = Vec::new();
        for i in 0..count {
            let pool = pool.clone();
            tasks.push(tokio::spawn(async move {
                post(&pool, &format!("word{}", i), &format!("meaning{}", i)).await
            }));
        }
        for task in tasks {
            assert_eq!(task.await.unwrap().status, 200);
        }
        let listed = entries(get(&pool).await);
        assert_eq!(listed.len(), count + 1);
        for i in 0..count {
            let wanted = entry(&format!("word{}", i), &format!("meaning{}", i));
            assert_eq!(listed.iter().filter(|e| **e == wanted).count(), 1);
        }
    });
}

#[test]
fn hostile_text_is_stored_as_text() {
    block_on(async {
        let pool = open().await;
        let word = "x'); drop table words; --";
        assert_eq!(post(&pool, word, "\"quoted\" ? text").await.status, 200);
        assert_eq!(entries(get(&pool).await), vec![entry(word, "\"quoted\" ? text")]);
    });
}

#[test]
fn null_in_the_table_fails_the_listing() {
    block_on(async {
        let pool = open().await;
        post(&pool, "whole", "both columns").await;
        sqlx::query("insert into words(word, meaning) values ('half', NULL)")
            .execute(&pool)
            .await
            .unwrap();
        assert_eq!(
            get(&pool).await,
            Response { status: 500, body: Body::Text("Failed to fetch words".to_string()) }
        );
    });
}

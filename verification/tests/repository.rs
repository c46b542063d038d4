use wordbook::entry::WordEntry;
use wordbook::repository::{insert_word, list_words, select_words};
use wordbook::storage::{FailureKind, Statement, StorageFailure};

fn entry(word: &str, meaning: &str) -> WordEntry {
    WordEntry::new(word.to_string(), meaning.to_string())
}

fn placeholders(sql: &str) -> usize {
    sql.chars().filter(|c| *c == '?').count()
}

#[test]
fn select_has_no_parameters() {
    let statement = select_words();
    assert_eq!(statement.sql(), "select word, meaning from words");
    assert_eq!(statement.params(), Vec::<String>::new());
}

#[test]
fn insert_binds_word_then_meaning() {
    let statement = insert_word(entry("ephemeral", "lasting a short time"));
    assert_eq!(statement, Statement::Insert(entry("ephemeral", "lasting a short time")));
    assert_eq!(statement.sql(), "insert into words(word, meaning) values (?, ?)");
    assert_eq!(
        statement.params(),
        vec!["ephemeral".to_string(), "lasting a short time".to_string()]
    );
}

#[test]
fn insert_text_is_the_same_for_every_entry() {
    let plain = insert_word(entry("a", "b"));
    let hostile = insert_word(entry("x'); drop table words; --", "?, ?"));
    assert_eq!(plain.sql(), hostile.sql());
    assert_eq!(hostile.params(), vec!["x'); drop table words; --".to_string(), "?, ?".to_string()]);
}

#[test]
fn each_placeholder_has_its_parameter() {
    for statement in [select_words(), insert_word(entry("w", "m"))] {
        assert_eq!(placeholders(statement.sql()), statement.params().len());
    }
}

#[test]
fn rows_become_entries_one_for_one() {
    let rows = vec![
        (Some("one".to_string()), Some("1".to_string())),
        (Some("two".to_string()), Some("2".to_string())),
    ];
    assert_eq!(list_words(Ok(rows)), Ok(vec![entry("one", "1"), entry("two", "2")]));
    assert_eq!(list_words(Ok(Vec::new())), Ok(Vec::new()));
}

#[test]
fn a_null_column_is_a_mapping_failure() {
    let rows = vec![
        (Some("one".to_string()), Some("1".to_string())),
        (None, Some("2".to_string())),
    ];
    assert_eq!(
        list_words(Ok(rows)),
        Err(StorageFailure {
            kind: FailureKind::Mapping,
            detail: "a row of words holds NULL".to_string(),
        })
    );
}

#[test]
fn a_storage_failure_is_passed_on() {
    let failure = StorageFailure { kind: FailureKind::Connection, detail: "timed out".to_string() };
    assert_eq!(list_words(Err(failure.clone())), Err(failure));
}

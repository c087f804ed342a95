use chat_store::db::error::StoreError;
use chat_store::db::messages::{get_messages, save_message, NewMessage};
use chat_store::db::threads::{create_thread, list_threads};
use chat_store::db::Database;
use std::path::PathBuf;

#[test]
fn a_new_database_is_ready_for_use() {
    let db = Database::new(PathBuf::from(":memory:")).unwrap();
    let conn = db.conn().unwrap();
    assert!(list_threads(&conn).unwrap().is_empty());
    let thread = create_thread(&conn).unwrap();
    assert_eq!(list_threads(&conn).unwrap().len(), 1);
    let on: i32 = conn.query_row("PRAGMA foreign_keys", [], |row| row.get(0)).unwrap();
    assert_eq!(on, 1);
    let message = NewMessage {
        role: "user".to_string(),
        content: "hi".to_string(),
        tool_invocations: None,
    };
    save_message(&conn, &thread.id, &message).unwrap();
    assert_eq!(get_messages(&conn, &thread.id).unwrap().len(), 1);
}

#[test]
fn the_lock_is_free_again_once_the_guard_is_dropped() {
    let db = Database::new(PathBuf::from(":memory:")).unwrap();
    {
        let conn = db.conn().unwrap();
        create_thread(&conn).unwrap();
    }
    let conn = db.conn().unwrap();
    assert_eq!(list_threads(&conn).unwrap().len(), 1);
}

#[test]
fn with_connection_runs_the_closure_under_the_lock() {
    let db = Database::new(PathBuf::from(":memory:")).unwrap();
    let created = db.with_connection(|conn| create_thread(conn)).unwrap().unwrap();
    let listed = db.with_connection(|conn| list_threads(conn)).unwrap().unwrap();
    assert_eq!(listed.len(), 1);
    assert_eq!(listed[0].id, created.id);
    assert_eq!(db.with_connection(|_| 7), Ok(7));
    let failed: Result<Result<(), StoreError>, StoreError> =
        db.with_connection(|conn| save_message(conn, "no-such-thread", &NewMessage {
            role: "user".to_string(),
            content: "x".to_string(),
            tool_invocations: None,
        }).map(|_| ()));
    assert!(matches!(failed, Ok(Err(StoreError::Constraint(_)))));
    assert!(db.conn().is_ok());
}

#[test]
fn a_path_that_cannot_be_opened_is_an_engine_error() {
    let outcome = Database::new(PathBuf::from("/no-such-directory/for/chat-store/chat.db"));
    assert!(matches!(outcome, Err(StoreError::Engine(_))));
}

#[test]
fn a_poisoned_lock_is_an_error_and_a_taken_one_is_handed_on() {
    assert_eq!(chat_store::db::guard::unpoisoned(Ok(7)), Ok(7));
    assert_eq!(
        chat_store::db::guard::unpoisoned(Err(std::sync::PoisonError::new(7))),
        Err(StoreError::LockPoisoned)
    );
}

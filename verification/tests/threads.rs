use chat_store::db::clock::Timestamp;
use chat_store::db::error::StoreError;
use chat_store::db::schema::init;
use chat_store::db::threads::{
    create_thread, delete_thread, first_thread, get_thread, list_threads, new_thread_params,
    thread_from_row, threads_from_rows, title_params, touch_params, touch_thread,
    update_thread_timestamp, update_thread_title,
};

fn store() -> rusqlite::Connection {
    let conn = rusqlite::Connection::open_in_memory().unwrap();
    init(&conn).unwrap();
    conn
}

fn text(s: &str) -> Option<String> {
    Some(s.to_string())
}

fn stored_stamps(conn: &rusqlite::Connection, id: &str) -> (String, String) {
    conn.query_row("SELECT created_at, updated_at FROM threads WHERE id = ?1", [id], |row| {
        Ok((row.get::<_, String>(0)?, row.get::<_, String>(1)?))
    })
    .unwrap()
}

fn rfc3339(stamp: Timestamp) -> String {
    chrono::DateTime::from_timestamp(stamp.secs, stamp.nanos).unwrap().to_rfc3339()
}

#[test]
fn created_thread_is_untitled_with_equal_timestamps() {
    let conn = store();
    let before = chrono::Utc::now().timestamp();
    let thread = create_thread(&conn).unwrap();
    let after = chrono::Utc::now().timestamp();
    assert!(thread.title.is_none());
    assert_eq!(thread.created_at, thread.updated_at);
    assert!(before <= thread.created_at.secs && thread.created_at.secs <= after);
    assert_eq!(thread.id.len(), 36);
    assert!(uuid::Uuid::parse_str(&thread.id).is_ok());
}

#[test]
fn created_threads_get_distinct_ids() {
    let conn = store();
    let a = create_thread(&conn).unwrap();
    let b = create_thread(&conn).unwrap();
    assert_ne!(a.id, b.id);
}

#[test]
fn created_thread_is_stored_as_rfc3339_text() {
    let conn = store();
    let thread = create_thread(&conn).unwrap();
    let (created, updated) = stored_stamps(&conn, &thread.id);
    assert_eq!(created, rfc3339(thread.created_at));
    assert_eq!(updated, rfc3339(thread.updated_at));
    let title: Option<String> = conn
        .query_row("SELECT title FROM threads WHERE id = ?1", [&thread.id], |row| row.get(0))
        .unwrap();
    assert!(title.is_none());
}

#[test]
fn create_then_list_shows_exactly_that_thread_untitled() {
    let conn = store();
    let thread = create_thread(&conn).unwrap();
    let listed = list_threads(&conn).unwrap();
    assert_eq!(listed.len(), 1);
    assert_eq!(listed[0].id, thread.id);
    assert!(listed[0].title.is_none());
    assert_eq!(listed[0].created_at, thread.created_at);
    assert_eq!(listed[0].updated_at, thread.updated_at);
}

#[test]
fn list_of_an_empty_store_is_empty() {
    let conn = store();
    assert!(list_threads(&conn).unwrap().is_empty());
}

#[test]
fn list_puts_the_most_recently_updated_first() {
    let conn = store();
    conn.execute_batch(
        "INSERT INTO threads VALUES ('old', NULL, '2024-01-01T00:00:00+00:00', '2024-01-01T00:00:00+00:00');
         INSERT INTO threads VALUES ('new', 'n', '2024-01-02T00:00:00+00:00', '2024-03-01T00:00:00+00:00');
         INSERT INTO threads VALUES ('mid', NULL, '2024-01-03T00:00:00+00:00', '2024-02-01T00:00:00+00:00');",
    )
    .unwrap();
    let listed = list_threads(&conn).unwrap();
    let ids: Vec<&str> = listed.iter().map(|t| t.id.as_str()).collect();
    assert_eq!(ids, vec!["new", "mid", "old"]);
    assert_eq!(listed[0].title.as_deref(), Some("n"));
    assert_eq!(listed[0].updated_at, Timestamp { secs: 1709251200, nanos: 0 });

    update_thread_timestamp(&conn, "old").unwrap();
    let listed = list_threads(&conn).unwrap();
    let ids: Vec<&str> = listed.iter().map(|t| t.id.as_str()).collect();
    assert_eq!(ids, vec!["old", "new", "mid"]);
}

#[test]
fn get_finds_a_thread_and_reports_a_missing_one_as_none() {
    let conn = store();
    let thread = create_thread(&conn).unwrap();
    let found = get_thread(&conn, &thread.id).unwrap().unwrap();
    assert_eq!(found.id, thread.id);
    assert!(found.title.is_none());
    assert_eq!(found.created_at, thread.created_at);
    assert!(get_thread(&conn, "no-such-thread").unwrap().is_none());
}

#[test]
fn update_title_sets_the_title_and_moves_updated_at() {
    let conn = store();
    conn.execute_batch(
        "INSERT INTO threads VALUES ('t', NULL, '2024-01-01T00:00:00+00:00', '2024-01-01T00:00:00+00:00');",
    )
    .unwrap();
    let before = chrono::Utc::now().timestamp();
    update_thread_title(&conn, "t", "Plans").unwrap();
    let thread = get_thread(&conn, "t").unwrap().unwrap();
    assert_eq!(thread.title.as_deref(), Some("Plans"));
    assert_eq!(thread.created_at, Timestamp { secs: 1704067200, nanos: 0 });
    assert!(thread.updated_at.secs >= before);

    update_thread_title(&conn, "t", "").unwrap();
    assert_eq!(get_thread(&conn, "t").unwrap().unwrap().title.as_deref(), Some(""));
}

#[test]
fn update_title_on_an_unknown_id_succeeds_and_changes_nothing() {
    let conn = store();
    let thread = create_thread(&conn).unwrap();
    let stamps = stored_stamps(&conn, &thread.id);
    assert_eq!(update_thread_title(&conn, "no-such-thread", "ghost"), Ok(()));
    let listed = list_threads(&conn).unwrap();
    assert_eq!(listed.len(), 1);
    assert_eq!(listed[0].id, thread.id);
    assert!(listed[0].title.is_none());
    assert_eq!(stored_stamps(&conn, &thread.id), stamps);
}

#[test]
fn touch_moves_updated_at_and_keeps_the_title() {
    let conn = store();
    conn.execute_batch(
        "INSERT INTO threads VALUES ('t', 'kept', '2024-01-01T00:00:00+00:00', '2024-01-01T00:00:00+00:00');",
    )
    .unwrap();
    touch_thread(&conn, "t", "2024-06-01T12:00:00+00:00").unwrap();
    let thread = get_thread(&conn, "t").unwrap().unwrap();
    assert_eq!(thread.title.as_deref(), Some("kept"));
    assert_eq!(thread.created_at, Timestamp { secs: 1704067200, nanos: 0 });
    assert_eq!(thread.updated_at, Timestamp { secs: 1717243200, nanos: 0 });

    let before = chrono::Utc::now().timestamp();
    update_thread_timestamp(&conn, "t").unwrap();
    let thread = get_thread(&conn, "t").unwrap().unwrap();
    assert_eq!(thread.title.as_deref(), Some("kept"));
    assert!(thread.updated_at.secs >= before);
    assert_eq!(update_thread_timestamp(&conn, "no-such-thread"), Ok(()));
}

#[test]
fn delete_removes_the_thread_and_is_a_noop_on_an_unknown_id() {
    let conn = store();
    let a = create_thread(&conn).unwrap();
    let b = create_thread(&conn).unwrap();
    assert_eq!(delete_thread(&conn, &a.id), Ok(()));
    let listed = list_threads(&conn).unwrap();
    assert_eq!(listed.len(), 1);
    assert_eq!(listed[0].id, b.id);
    assert!(get_thread(&conn, &a.id).unwrap().is_none());
    assert_eq!(delete_thread(&conn, &a.id), Ok(()));
    assert_eq!(delete_thread(&conn, "no-such-thread"), Ok(()));
    assert_eq!(list_threads(&conn).unwrap().len(), 1);
}

#[test]
fn operations_on_a_store_without_tables_fail_with_the_engine_error() {
    let conn = rusqlite::Connection::open_in_memory().unwrap();
    assert!(matches!(create_thread(&conn), Err(StoreError::Engine(_))));
    assert!(matches!(list_threads(&conn), Err(StoreError::Engine(_))));
    assert!(matches!(get_thread(&conn, "t"), Err(StoreError::Engine(_))));
    assert!(matches!(update_thread_title(&conn, "t", "x"), Err(StoreError::Engine(_))));
    assert!(matches!(delete_thread(&conn, "t"), Err(StoreError::Engine(_))));
    let message = create_thread(&conn).unwrap_err().message();
    assert!(message.contains("threads"));
}

#[test]
fn a_duplicate_id_is_a_constraint_error() {
    let conn = store();
    conn.execute_batch(
        "INSERT INTO threads VALUES ('t', NULL, '2024-01-01T00:00:00+00:00', '2024-01-01T00:00:00+00:00');",
    )
    .unwrap();
    let outcome = conn.execute(
        "INSERT INTO threads VALUES ('t', NULL, '2024-01-01T00:00:00+00:00', '2024-01-01T00:00:00+00:00')",
        [],
    );
    assert!(matches!(chat_store::db::row::written(outcome), Err(StoreError::Constraint(_))));
}

#[test]
fn parameter_lists_hold_the_values_in_statement_order() {
    assert_eq!(new_thread_params("id-1", "stamp"), vec![text("id-1"), text("stamp"), text("stamp")]);
    assert_eq!(title_params("Title", "stamp", "id-1"), vec![text("Title"), text("stamp"), text("id-1")]);
    assert_eq!(touch_params("stamp", "id-1"), vec![text("stamp"), text("id-1")]);
}

#[test]
fn thread_from_row_reads_each_column() {
    let row = vec![
        text("id-1"),
        text("A title"),
        text("2024-01-02T03:04:05+00:00"),
        text("2024-01-02T03:04:06.5+00:00"),
    ];
    let thread = thread_from_row(&row).unwrap();
    assert_eq!(thread.id, "id-1");
    assert_eq!(thread.title.as_deref(), Some("A title"));
    assert_eq!(thread.created_at, Timestamp { secs: 1704164645, nanos: 0 });
    assert_eq!(thread.updated_at, Timestamp { secs: 1704164646, nanos: 500_000_000 });

    let untitled = vec![
        text("id-2"),
        None,
        text("2024-01-02T03:04:05+00:00"),
        text("2024-01-02T03:04:05+00:00"),
    ];
    assert!(thread_from_row(&untitled).unwrap().title.is_none());
}

#[test]
fn thread_from_row_refuses_a_row_that_lacks_a_required_value() {
    let stamp = "2024-01-02T03:04:05+00:00";
    let no_id = vec![None, text("t"), text(stamp), text(stamp)];
    let no_created = vec![text("id"), text("t"), None, text(stamp)];
    let no_updated = vec![text("id"), text("t"), text(stamp), None];
    let short = vec![text("id"), text("t"), text(stamp)];
    let long = vec![text("id"), text("t"), text(stamp), text(stamp), text("extra")];
    for row in [no_id, no_created, no_updated, short, long, Vec::new()] {
        assert_eq!(thread_from_row(&row).unwrap_err(), StoreError::MalformedRow);
    }
}

#[test]
fn a_timestamp_that_spells_no_instant_reads_as_the_current_one() {
    let before = chrono::Utc::now().timestamp();
    let row = vec![text("id"), None, text("yesterday"), text("2024-01-02T03:04:05+00:00")];
    let thread = thread_from_row(&row).unwrap();
    let after = chrono::Utc::now().timestamp();
    assert!(before <= thread.created_at.secs && thread.created_at.secs <= after);
    assert_eq!(thread.updated_at, Timestamp { secs: 1704164645, nanos: 0 });
}

#[test]
fn threads_from_rows_keeps_the_order_of_the_rows() {
    let stamp = "2024-01-02T03:04:05+00:00";
    let rows = vec![
        vec![text("c"), None, text(stamp), text(stamp)],
        vec![text("a"), text("x"), text(stamp), text(stamp)],
        vec![text("b"), None, text(stamp), text(stamp)],
    ];
    let threads = threads_from_rows(&rows).unwrap();
    let ids: Vec<&str> = threads.iter().map(|t| t.id.as_str()).collect();
    assert_eq!(ids, vec!["c", "a", "b"]);
    assert!(threads_from_rows(&Vec::new()).unwrap().is_empty());
}

#[test]
fn threads_from_rows_fails_on_one_bad_row() {
    let stamp = "2024-01-02T03:04:05+00:00";
    let rows = vec![
        vec![text("a"), None, text(stamp), text(stamp)],
        vec![None, None, text(stamp), text(stamp)],
    ];
    assert_eq!(threads_from_rows(&rows).unwrap_err(), StoreError::MalformedRow);
}

#[test]
fn first_thread_takes_the_first_row_or_none() {
    let stamp = "2024-01-02T03:04:05+00:00";
    assert!(first_thread(&Vec::new()).unwrap().is_none());
    let rows = vec![
        vec![text("a"), None, text(stamp), text(stamp)],
        vec![text("b"), None, text(stamp), text(stamp)],
    ];
    assert_eq!(first_thread(&rows).unwrap().unwrap().id, "a");
    let bad = vec![vec![None, None, text(stamp), text(stamp)]];
    assert_eq!(first_thread(&bad).unwrap_err(), StoreError::MalformedRow);
}

#[test]
fn a_null_id_in_the_store_fails_the_listing() {
    let conn = store();
    conn.execute_batch(
        "INSERT INTO threads VALUES (NULL, NULL, '2024-01-01T00:00:00+00:00', '2024-01-01T00:00:00+00:00');",
    )
    .unwrap();
    assert_eq!(list_threads(&conn).unwrap_err(), StoreError::MalformedRow);
}

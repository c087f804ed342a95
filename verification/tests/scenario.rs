use chat_store::db::messages::{get_messages, save_message, NewMessage};
use chat_store::db::schema::init;
use chat_store::db::threads::{create_thread, list_threads};

#[test]
fn two_messages_in_one_thread() {
    let conn = rusqlite::Connection::open_in_memory().unwrap();
    init(&conn).unwrap();

    let a = create_thread(&conn).unwrap();
    let hi = NewMessage {
        role: "user".to_string(),
        content: "hi".to_string(),
        tool_invocations: None,
    };
    let hello = NewMessage {
        role: "assistant".to_string(),
        content: "hello".to_string(),
        tool_invocations: None,
    };
    let first = save_message(&conn, &a.id, &hi).unwrap();
    let second = save_message(&conn, &a.id, &hello).unwrap();

    let messages = get_messages(&conn, &a.id).unwrap();
    assert_eq!(messages.len(), 2);
    assert_eq!(messages[0].role, "user");
    assert_eq!(messages[0].content, "hi");
    assert_eq!(messages[1].role, "assistant");
    assert_eq!(messages[1].content, "hello");
    assert_eq!(messages[0].id, first.id);
    assert_eq!(messages[1].id, second.id);
    assert_eq!(messages[0].id.len(), 36);
    assert_eq!(messages[1].id.len(), 36);
    assert_ne!(messages[0].id, messages[1].id);
    assert_eq!(messages[0].created_at, first.created_at);
    assert_eq!(messages[1].created_at, second.created_at);
    assert_eq!(messages[0].thread_id, a.id);
    assert_eq!(messages[1].thread_id, a.id);

    let threads = list_threads(&conn).unwrap();
    assert_eq!(threads.len(), 1);
    assert_eq!(threads[0].id, a.id);
    assert!(threads[0].title.is_none());
    assert_eq!(threads[0].created_at, a.created_at);
    assert_eq!(threads[0].updated_at, messages[1].created_at);
}

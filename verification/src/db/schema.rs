//! The table layout, and the additive migration run at every start.

use vstd::prelude::*;
use crate::db::engine;
use crate::db::error::StoreError;
use crate::db::row::written;

verus! {

/// Creates, where absent, the three tables and the index on a message's
/// thread.
pub const CREATE_TABLES: &'static str =
    "
        CREATE TABLE IF NOT EXISTS threads (
            id TEXT PRIMARY KEY,
            title TEXT,
            created_at TEXT NOT NULL,
            updated_at TEXT NOT NULL
        );

        CREATE TABLE IF NOT EXISTS messages (
            id TEXT PRIMARY KEY,
            thread_id TEXT NOT NULL,
            role TEXT NOT NULL,
            content TEXT NOT NULL,
            created_at TEXT NOT NULL,
            FOREIGN KEY (thread_id) REFERENCES threads(id) ON DELETE CASCADE
        );

        CREATE INDEX IF NOT EXISTS idx_messages_thread_id ON messages(thread_id);

        CREATE TABLE IF NOT EXISTS settings_submissions (
            tool_call_id TEXT NOT NULL,
            settings_key TEXT NOT NULL,
            submitted_at TEXT NOT NULL,
            PRIMARY KEY (tool_call_id, settings_key)
        );
        ";

/// Turns on foreign-key enforcement, which the engine leaves off in every
/// new session.
pub const ENABLE_FOREIGN_KEYS: &'static str = "PRAGMA foreign_keys = ON";

/// Counts the columns of `messages` that are named `tool_invocations`.
pub const COUNT_PAYLOAD_COLUMN: &'static str =
    "SELECT COUNT(*) FROM pragma_table_info('messages') WHERE name='tool_invocations'";

/// Adds the nullable payload column to `messages`.
pub const ADD_PAYLOAD_COLUMN: &'static str = "ALTER TABLE messages ADD COLUMN tool_invocations TEXT";

/// Whether the column count that came back shows the payload column to be
/// there: it is there exactly where the count is at least one. A count that
/// could not be read is the engine's failure and says nothing about the
/// column, so it is passed on rather than taken for "missing".
pub fn column_present(count: Result<i32, rusqlite::Error>) -> (r: Result<bool, StoreError>)
    ensures
        match count {
            Ok(n) => r == Ok::<bool, StoreError>(n > 0),
            Err(_) => r matches Err(e) && (e is Constraint || e is Engine),
        },
{
    match count {
        Ok(n) => Ok(n > 0),
        Err(e) => Err(engine::failure(e)),
    }
}

/// Brings the file behind `conn` to the current layout. Safe on every
/// start: tables and index are created only where absent
/// ([`CREATE_TABLES`]), foreign keys are switched on for the session
/// ([`ENABLE_FOREIGN_KEYS`]), and the payload column is added
/// ([`ADD_PAYLOAD_COLUMN`]) only where the column list lacks it
/// ([`COUNT_PAYLOAD_COLUMN`], read with [`column_present`]). Any statement
/// that fails, the reading of the column list among them, ends the setup
/// with that failure; nothing is retried, and the column is never found out
/// by trying to add it.
pub fn init(conn: &rusqlite::Connection) -> (r: Result<(), StoreError>)
    ensures
        r matches Err(e) ==> e is Constraint || e is Engine,
{
    let no_params: Vec<Option<String>> = Vec::new();
    match engine::checked(engine::execute_batch(conn, CREATE_TABLES)) {
        Ok(()) => {},
        Err(e) => {
            return Err(e);
        },
    }
    match written(engine::execute(conn, ENABLE_FOREIGN_KEYS, &no_params)) {
        Ok(()) => {},
        Err(e) => {
            return Err(e);
        },
    }
    let present = match engine::checked(engine::prepare(conn, COUNT_PAYLOAD_COLUMN)) {
        Ok(mut stmt) => match column_present(engine::query_count(&mut stmt, &no_params)) {
            Ok(present) => present,
            Err(e) => {
                return Err(e);
            },
        },
        Err(e) => {
            return Err(e);
        },
    };
    if present {
        Ok(())
    } else {
        written(engine::execute(conn, ADD_PAYLOAD_COLUMN, &no_params))
    }
}

} // verus!

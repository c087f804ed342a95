//! The settings-submission ledger: a record that the settings asked for by
//! a tool call were handed in. It is a presence marker, keyed by the tool
//! call and the settings key, and nothing more.

use vstd::prelude::*;
use crate::db::engine;
use crate::db::error::StoreError;
use crate::db::row::{cells, one_text, two_texts, written};

verus! {

/// Records a submission at the engine's current time; a record already
/// there under the same key pair is replaced, so one pair never has two.
pub const MARK_SUBMITTED: &'static str =
    "INSERT OR REPLACE INTO settings_submissions (tool_call_id, settings_key, submitted_at) VALUES (?1, ?2, datetime('now'))";

/// Counts the records of one tool call.
pub const COUNT_SUBMITTED: &'static str =
    "SELECT COUNT(*) FROM settings_submissions WHERE tool_call_id = ?1";

/// The values bound when a submission is recorded: the tool call's id,
/// then the settings key.
pub fn submission_params(tool_call_id: &str, settings_key: &str) -> (r: Vec<Option<String>>)
    ensures
        cells(r@) =~= seq![Some(tool_call_id@), Some(settings_key@)],
{
    two_texts(tool_call_id, settings_key)
}

/// What the count of a tool call's records says: submitted exactly where
/// there is at least one. A count that could not be read is the engine's
/// failure.
pub fn submitted(count: Result<i32, rusqlite::Error>) -> (r: Result<bool, StoreError>)
    ensures
        match count {
            Ok(n) => r == Ok::<bool, StoreError>(n > 0),
            Err(_) => r matches Err(e) && (e is Constraint || e is Engine),
        },
{
    match count {
        Ok(n) => Ok(n > 0),
        Err(e) => Err(engine::failure(e)),
    }
}

/// Records that the settings `settings_key` asked for by `tool_call_id`
/// were submitted: runs [`MARK_SUBMITTED`] with [`submission_params`].
/// Recording the same pair again is a success and leaves one record.
pub fn mark_settings_submitted(
    conn: &rusqlite::Connection,
    tool_call_id: &str,
    settings_key: &str,
) -> (r: Result<(), StoreError>)
    ensures
        r matches Err(e) ==> e is Constraint || e is Engine,
{
    let params = submission_params(tool_call_id, settings_key);
    written(engine::execute(conn, MARK_SUBMITTED, &params))
}

/// Whether any settings were recorded as submitted for `tool_call_id`:
/// runs [`COUNT_SUBMITTED`] and reads the count with [`submitted`].
pub fn is_settings_submitted(conn: &rusqlite::Connection, tool_call_id: &str) -> (r: Result<
    bool,
    StoreError,
>)
    ensures
        r matches Err(e) ==> e is Constraint || e is Engine,
{
    let mut stmt = match engine::checked(engine::prepare(conn, COUNT_SUBMITTED)) {
        Ok(stmt) => stmt,
        Err(e) => {
            return Err(e);
        },
    };
    let params = one_text(tool_call_id);
    submitted(engine::query_count(&mut stmt, &params))
}

} // verus!

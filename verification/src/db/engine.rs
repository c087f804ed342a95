//! The calls into SQLite, and what the store makes of their answers.
//!
//! Each call is a thin wrapper around one `rusqlite` function. What a
//! statement does to the stored tables depends on the file behind the
//! connection, so no wrapper promises anything about its outcome. What is
//! proved is how an outcome is read: [`checked`], [`failure`] and
//! [`classified`].

use vstd::prelude::*;
use crate::db::error::StoreError;

verus! {

#[verifier::external_type_specification]
#[verifier::external_body]
pub struct ExConnection(rusqlite::Connection);

#[verifier::external_type_specification]
#[verifier::external_body]
pub struct ExStatement<'conn>(rusqlite::Statement<'conn>);

#[verifier::external_type_specification]
#[verifier::external_body]
pub struct ExEngineError(rusqlite::Error);

/// `rusqlite::Connection::open`: opens, creating it if absent, the database
/// file at `path`. Nothing is assumed of the outcome.
#[verifier::external_body]
pub(crate) fn open(path: std::path::PathBuf) -> (r: Result<
    rusqlite::Connection,
    rusqlite::Error,
>) {
    rusqlite::Connection::open(path)
}

/// `rusqlite::Connection::execute_batch`: runs the statements in `sql` one
/// after another. Nothing is assumed of the outcome.
#[verifier::external_body]
pub(crate) fn execute_batch(conn: &rusqlite::Connection, sql: &str) -> (r: Result<
    (),
    rusqlite::Error,
>) {
    conn.execute_batch(sql)
}

/// `rusqlite::Connection::execute`: prepares `sql`, binds `params` to its
/// placeholders in order (`None` as NULL) and runs it; on success the count of
/// rows changed. Nothing is assumed of the outcome.
#[verifier::external_body]
pub(crate) fn execute(conn: &rusqlite::Connection, sql: &str, params: &Vec<Option<String>>) -> (r:
    Result<usize, rusqlite::Error>) {
    conn.execute(sql, rusqlite::params_from_iter(params.iter()))
}

/// `rusqlite::Connection::prepare`: compiles one statement. Nothing is
/// assumed of the outcome.
#[verifier::external_body]
pub(crate) fn prepare<'conn>(conn: &'conn rusqlite::Connection, sql: &str) -> (r: Result<
    rusqlite::Statement<'conn>,
    rusqlite::Error,
>) {
    conn.prepare(sql)
}

/// `rusqlite::Statement::query_map`: runs the statement with `params` bound
/// and hands back every row, in the engine's order, as its first `columns`
/// columns read as nullable text. A column that is missing or holds
/// something other than text or NULL fails the whole query. Nothing is
/// assumed of the outcome.
#[verifier::external_body]
pub(crate) fn query_text_rows(
    stmt: &mut rusqlite::Statement<'_>,
    params: &Vec<Option<String>>,
    columns: usize,
) -> (r: Result<Vec<Vec<Option<String>>>, rusqlite::Error>) {
    stmt.query_map(
        rusqlite::params_from_iter(params.iter()),
        |row| (0..columns).map(|i| row.get::<usize, Option<String>>(i)).collect(),
    )?.collect()
}

/// `rusqlite::Statement::query_row`: runs the statement with `params` bound
/// and reads the first column of its first row as a 32-bit integer. Nothing
/// is assumed of the outcome.
#[verifier::external_body]
pub(crate) fn query_count(stmt: &mut rusqlite::Statement<'_>, params: &Vec<Option<String>>) -> (r:
    Result<i32, rusqlite::Error>) {
    stmt.query_row(rusqlite::params_from_iter(params.iter()), |row| row.get::<usize, i32>(0))
}

/// `rusqlite::Error::sqlite_error_code` and the error's `Display` text:
/// whether the engine reports a broken constraint, and its description.
/// Nothing is assumed of the outcome.
#[verifier::external_body]
fn describe(e: rusqlite::Error) -> (r: (bool, String)) {
    (
        matches!(e.sqlite_error_code(), Some(rusqlite::ErrorCode::ConstraintViolation)),
        e.to_string(),
    )
}

/// The store's error for a failure that the engine described: a broken
/// constraint is told apart from every other failure, and either carries
/// the engine's description.
pub fn classified(constraint: bool, text: String) -> (r: StoreError)
    ensures
        constraint ==> r == StoreError::Constraint(text),
        !constraint ==> r == StoreError::Engine(text),
{
    if constraint {
        StoreError::Constraint(text)
    } else {
        StoreError::Engine(text)
    }
}

/// The store's error for an engine error.
pub fn failure(e: rusqlite::Error) -> (r: StoreError)
    ensures
        r is Constraint || r is Engine,
{
    let (constraint, text) = describe(e);
    classified(constraint, text)
}

/// What the store makes of any answer of the engine: a value is handed on
/// as it came, and an engine error becomes the store's own.
pub fn checked<T>(outcome: Result<T, rusqlite::Error>) -> (r: Result<T, StoreError>)
    ensures
        match outcome {
            Ok(value) => r == Ok::<T, StoreError>(value),
            Err(_) => r matches Err(e) && (e is Constraint || e is Engine),
        },
{
    match outcome {
        Ok(value) => Ok(value),
        Err(e) => Err(failure(e)),
    }
}

} // verus!

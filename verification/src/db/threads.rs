//! Conversation threads.

use vstd::prelude::*;
use crate::db::clock::{calendar_keeps, parse_or_now, reads_as, stamp_now, Timestamp};
use crate::db::engine;
use crate::db::error::StoreError;
use crate::db::ident::{fresh_id, id_len};
use crate::db::row::{cells, copy_text, one_text, text_view, three_texts, two_texts, written};

verus! {

/// A conversation: the container that owns an ordered run of messages.
#[derive(Debug, Clone)]
pub struct Thread {
    /// Assigned at creation and never changed.
    pub id: String,
    /// Absent until a title is set.
    pub title: Option<String>,
    /// Set at creation and never changed.
    pub created_at: Timestamp,
    /// Moved forward by a title change and by every message saved to the
    /// thread.
    pub updated_at: Timestamp,
}

/// A thread as contracts see it.
pub struct ThreadView {
    pub id: Seq<char>,
    pub title: Option<Seq<char>>,
    pub created_at: Timestamp,
    pub updated_at: Timestamp,
}

impl View for Thread {
    type V = ThreadView;

    open spec fn view(&self) -> ThreadView {
        ThreadView {
            id: self.id@,
            title: text_view(self.title),
            created_at: self.created_at,
            updated_at: self.updated_at,
        }
    }
}

/// Number of columns in a thread's row: id, title, created_at, updated_at.
pub const THREAD_COLUMNS: usize = 4;

pub const INSERT_THREAD: &'static str =
    "INSERT INTO threads (id, title, created_at, updated_at) VALUES (?1, NULL, ?2, ?3)";

pub const SELECT_THREAD: &'static str =
    "SELECT id, title, created_at, updated_at FROM threads WHERE id = ?1";

pub const SELECT_THREADS: &'static str =
    "SELECT id, title, created_at, updated_at FROM threads ORDER BY updated_at DESC";

pub const UPDATE_TITLE: &'static str =
    "UPDATE threads SET title = ?1, updated_at = ?2 WHERE id = ?3";

pub const UPDATE_TIMESTAMP: &'static str = "UPDATE threads SET updated_at = ?1 WHERE id = ?2";

pub const DELETE_THREAD: &'static str = "DELETE FROM threads WHERE id = ?1";

/// The thread that creation hands back: no title, and both timestamps at the
/// instant of creation.
pub open spec fn fresh_thread(id: Seq<char>, at: Timestamp) -> ThreadView {
    ThreadView { id, title: None, created_at: at, updated_at: at }
}

/// A row has a value in each column that a thread cannot do without: every
/// one but the title.
pub open spec fn thread_row_complete(row: Seq<Option<Seq<char>>>) -> bool {
    &&& row.len() == THREAD_COLUMNS
    &&& row[0] is Some
    &&& row[2] is Some
    &&& row[3] is Some
}

/// `thread` is a reading of `row`: id and title are taken as they stand, and
/// each timestamp is read from its text.
pub open spec fn row_reads_as_thread(row: Seq<Option<Seq<char>>>, thread: ThreadView) -> bool {
    &&& thread_row_complete(row)
    &&& thread.id == row[0].unwrap()
    &&& thread.title == row[1]
    &&& reads_as(row[2].unwrap(), thread.created_at)
    &&& reads_as(row[3].unwrap(), thread.updated_at)
}

/// The row that inserting a thread writes: the id, no title, and the text
/// of the creation instant under both timestamps.
pub open spec fn thread_row(id: Seq<char>, stamp: Seq<char>) -> Seq<Option<Seq<char>>> {
    seq![Some(id), None, Some(stamp), Some(stamp)]
}

/// Reading back the row that creation wrote gives the thread that creation
/// handed out, for every instant that the calendar reads back as it wrote
/// it.
pub proof fn created_thread_reads_back(id: Seq<char>, at: Timestamp, read: ThreadView)
    requires
        calendar_keeps(at),
        row_reads_as_thread(thread_row(id, at.text()), read),
    ensures
        read == fresh_thread(id, at),
{
}

/// The values bound when a thread is inserted: its id, and the text of the
/// creation instant for both timestamps. The title is NULL in the statement
/// itself.
pub fn new_thread_params(id: &str, stamp: &str) -> (r: Vec<Option<String>>)
    ensures
        cells(r@) =~= seq![Some(id@), Some(stamp@), Some(stamp@)],
{
    three_texts(id, stamp, stamp)
}

/// The values bound when a title is set: the title, the text of the new
/// `updated_at`, then the thread's id.
pub fn title_params(title: &str, stamp: &str, id: &str) -> (r: Vec<Option<String>>)
    ensures
        cells(r@) =~= seq![Some(title@), Some(stamp@), Some(id@)],
{
    three_texts(title, stamp, id)
}

/// The thread held in one row.
pub fn thread_from_row(row: &Vec<Option<String>>) -> (r: Result<Thread, StoreError>)
    ensures
        r is Ok <==> thread_row_complete(cells(row@)),
        r matches Ok(thread) ==> row_reads_as_thread(cells(row@), thread@),
        r matches Err(e) ==> e == StoreError::MalformedRow,
{
    if row.len() != THREAD_COLUMNS {
        return Err(StoreError::MalformedRow);
    }
    let id = match &row[0] {
        Some(text) => text.clone(),
        None => {
            return Err(StoreError::MalformedRow);
        },
    };
    let title = copy_text(&row[1]);
    let created_at = match &row[2] {
        Some(text) => parse_or_now(text.as_str()),
        None => {
            return Err(StoreError::MalformedRow);
        },
    };
    let updated_at = match &row[3] {
        Some(text) => parse_or_now(text.as_str()),
        None => {
            return Err(StoreError::MalformedRow);
        },
    };
    Ok(Thread { id, title, created_at, updated_at })
}

/// The threads held in a run of rows, in the order of the rows. One row
/// that lacks a required value fails the whole reading.
pub fn threads_from_rows(rows: &Vec<Vec<Option<String>>>) -> (r: Result<Vec<Thread>, StoreError>)
    ensures
        r is Ok <==> forall|i: int|
            0 <= i < rows@.len() ==> thread_row_complete(cells(#[trigger] rows@[i]@)),
        r matches Ok(threads) ==> threads@.len() == rows@.len() && forall|i: int|
            0 <= i < rows@.len() ==> row_reads_as_thread(
                cells(rows@[i]@),
                (#[trigger] threads@[i])@,
            ),
        r matches Err(e) ==> e == StoreError::MalformedRow,
{
    let mut threads: Vec<Thread> = Vec::new();
    let mut k: usize = 0;
    while k < rows.len()
        invariant
            0 <= k <= rows@.len(),
            threads@.len() == k,
            forall|i: int| 0 <= i < k ==> thread_row_complete(cells(#[trigger] rows@[i]@)),
            forall|i: int|
                0 <= i < k ==> row_reads_as_thread(cells(rows@[i]@), (#[trigger] threads@[i])@),
        decreases rows@.len() - k,
    {
        match thread_from_row(&rows[k]) {
            Ok(thread) => {
                threads.push(thread);
            },
            Err(e) => {
                return Err(e);
            },
        }
        k += 1;
    }
    Ok(threads)
}

/// The thread that a lookup by id found: none where no row came back,
/// otherwise the first row's.
pub fn first_thread(rows: &Vec<Vec<Option<String>>>) -> (r: Result<Option<Thread>, StoreError>)
    ensures
        match r {
            Ok(None) => rows@.len() == 0,
            Ok(Some(thread)) => rows@.len() > 0 && row_reads_as_thread(
                cells(rows@[0]@),
                thread@,
            ),
            Err(e) => rows@.len() > 0 && !thread_row_complete(cells(rows@[0]@)) && e
                == StoreError::MalformedRow,
        },
{
    if rows.len() == 0 {
        Ok(None)
    } else {
        match thread_from_row(&rows[0]) {
            Ok(thread) => Ok(Some(thread)),
            Err(e) => Err(e),
        }
    }
}

/// Creates a thread with a fresh id, no title, and both timestamps at the
/// current instant: runs [`INSERT_THREAD`] with [`new_thread_params`]. Fails
/// only where the engine fails the insert.
pub fn create_thread(conn: &rusqlite::Connection) -> (r: Result<Thread, StoreError>)
    ensures
        r matches Ok(thread) ==> thread@ == fresh_thread(thread@.id, thread@.created_at)
            && thread@.id.len() == id_len() && thread@.created_at.representable(),
        r matches Err(e) ==> e is Constraint || e is Engine,
{
    let id = fresh_id();
    let (now, now_text) = stamp_now();
    let params = new_thread_params(id.as_str(), now_text.as_str());
    match written(engine::execute(conn, INSERT_THREAD, &params)) {
        Ok(()) => Ok(Thread { id, title: None, created_at: now, updated_at: now }),
        Err(e) => Err(e),
    }
}

/// Looks a thread up by id: runs [`SELECT_THREAD`] and reads the outcome
/// with [`first_thread`]. A thread that is not there is `Ok(None)`, not an
/// error.
pub fn get_thread(conn: &rusqlite::Connection, id: &str) -> (r: Result<Option<Thread>, StoreError>)
    ensures
        r matches Ok(Some(thread)) ==> thread@.created_at.representable()
            && thread@.updated_at.representable(),
        r matches Err(e) ==> e is Constraint || e is Engine || e is MalformedRow,
{
    let mut stmt = match engine::checked(engine::prepare(conn, SELECT_THREAD)) {
        Ok(stmt) => stmt,
        Err(e) => {
            return Err(e);
        },
    };
    let params = one_text(id);
    match engine::checked(engine::query_text_rows(&mut stmt, &params, THREAD_COLUMNS)) {
        Ok(rows) => first_thread(&rows),
        Err(e) => Err(e),
    }
}

/// Lists every thread, in the order the engine returns them for "most
/// recently updated first": runs [`SELECT_THREADS`] and reads the rows with
/// [`threads_from_rows`]. No threads is an empty list, not an error.
pub fn list_threads(conn: &rusqlite::Connection) -> (r: Result<Vec<Thread>, StoreError>)
    ensures
        r matches Ok(threads) ==> forall|i: int|
            0 <= i < threads@.len() ==> (#[trigger] threads@[i])@.created_at.representable()
                && threads@[i]@.updated_at.representable(),
        r matches Err(e) ==> e is Constraint || e is Engine || e is MalformedRow,
{
    let mut stmt = match engine::checked(engine::prepare(conn, SELECT_THREADS)) {
        Ok(stmt) => stmt,
        Err(e) => {
            return Err(e);
        },
    };
    let params: Vec<Option<String>> = Vec::new();
    match engine::checked(engine::query_text_rows(&mut stmt, &params, THREAD_COLUMNS)) {
        Ok(rows) => threads_from_rows(&rows),
        Err(e) => Err(e),
    }
}

/// Overwrites a thread's title and moves its `updated_at` to the current
/// instant: runs [`UPDATE_TITLE`] with [`title_params`]. A thread that is
/// not there makes this a successful no-op.
pub fn update_thread_title(conn: &rusqlite::Connection, id: &str, title: &str) -> (r: Result<
    (),
    StoreError,
>)
    ensures
        r matches Err(e) ==> e is Constraint || e is Engine,
{
    let (_, now_text) = stamp_now();
    let params = title_params(title, now_text.as_str(), id);
    written(engine::execute(conn, UPDATE_TITLE, &params))
}

/// The values bound when a thread is touched: the text of the new
/// `updated_at`, then the thread's id.
pub fn touch_params(stamp: &str, id: &str) -> (r: Vec<Option<String>>)
    ensures
        cells(r@) =~= seq![Some(stamp@), Some(id@)],
{
    two_texts(stamp, id)
}

/// Moves a thread's `updated_at` to the instant whose text is `stamp` and
/// leaves its title alone: runs [`UPDATE_TIMESTAMP`] with [`touch_params`].
/// A thread that is not there makes this a successful no-op.
pub fn touch_thread(conn: &rusqlite::Connection, id: &str, stamp: &str) -> (r: Result<
    (),
    StoreError,
>)
    ensures
        r matches Err(e) ==> e is Constraint || e is Engine,
{
    let params = touch_params(stamp, id);
    written(engine::execute(conn, UPDATE_TIMESTAMP, &params))
}

/// Moves a thread's `updated_at` to the current instant and leaves its
/// title alone. A thread that is not there makes this a successful no-op.
pub fn update_thread_timestamp(conn: &rusqlite::Connection, id: &str) -> (r: Result<
    (),
    StoreError,
>)
    ensures
        r matches Err(e) ==> e is Constraint || e is Engine,
{
    let (_, now_text) = stamp_now();
    touch_thread(conn, id, now_text.as_str())
}

/// Deletes a thread: runs [`DELETE_THREAD`] with the id; the schema's
/// cascade takes the thread's messages with it. A thread that is not there
/// makes this a successful no-op.
pub fn delete_thread(conn: &rusqlite::Connection, id: &str) -> (r: Result<(), StoreError>)
    ensures
        r matches Err(e) ==> e is Constraint || e is Engine,
{
    let params = one_text(id);
    written(engine::execute(conn, DELETE_THREAD, &params))
}

} // verus!

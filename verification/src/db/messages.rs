//! Messages: the turns of a conversation, each owned by one thread.

use vstd::prelude::*;
use crate::db::clock::{calendar_keeps, parse_or_now, reads_as, stamp_now, Timestamp};
use crate::db::engine;
use crate::db::error::StoreError;
use crate::db::ident::{fresh_id, id_len};
use crate::db::payload;
use crate::db::payload::{codec_keeps, loaded_payload, payload_view, stored_text};
use crate::db::row::{cells, one_text, written};
use crate::db::threads::{touch_params, UPDATE_TIMESTAMP};

verus! {

/// One turn of a conversation, as stored.
#[derive(Debug, Clone)]
pub struct Message {
    /// Assigned when the message is saved and never changed.
    pub id: String,
    /// The thread that owns the message.
    pub thread_id: String,
    /// Who the turn came from; a short free-form tag.
    pub role: String,
    /// The text of the turn.
    pub content: String,
    /// Records of tool calls attached to the turn, if any.
    pub tool_invocations: Option<Vec<serde_json::Value>>,
    /// Set when the message is saved and never changed; orders the
    /// messages of a thread.
    pub created_at: Timestamp,
}

/// A message still to be saved: what the caller supplies.
#[derive(Debug, Clone)]
pub struct NewMessage {
    pub role: String,
    pub content: String,
    pub tool_invocations: Option<Vec<serde_json::Value>>,
}

/// A message as contracts see it.
pub struct MessageView {
    pub id: Seq<char>,
    pub thread_id: Seq<char>,
    pub role: Seq<char>,
    pub content: Seq<char>,
    pub tool_invocations: Option<Seq<serde_json::Value>>,
    pub created_at: Timestamp,
}

/// A message still to be saved, as contracts see it.
pub struct NewMessageView {
    pub role: Seq<char>,
    pub content: Seq<char>,
    pub tool_invocations: Option<Seq<serde_json::Value>>,
}

impl View for Message {
    type V = MessageView;

    open spec fn view(&self) -> MessageView {
        MessageView {
            id: self.id@,
            thread_id: self.thread_id@,
            role: self.role@,
            content: self.content@,
            tool_invocations: payload_view(self.tool_invocations),
            created_at: self.created_at,
        }
    }
}

impl View for NewMessage {
    type V = NewMessageView;

    open spec fn view(&self) -> NewMessageView {
        NewMessageView {
            role: self.role@,
            content: self.content@,
            tool_invocations: payload_view(self.tool_invocations),
        }
    }
}

/// Number of columns in a message's row: id, thread_id, role, content,
/// tool_invocations, created_at.
pub const MESSAGE_COLUMNS: usize = 6;

pub const INSERT_MESSAGE: &'static str =
    "INSERT INTO messages (id, thread_id, role, content, tool_invocations, created_at) VALUES (?1, ?2, ?3, ?4, ?5, ?6)";

pub const SELECT_MESSAGES: &'static str =
    "SELECT id, thread_id, role, content, tool_invocations, created_at FROM messages WHERE thread_id = ?1 ORDER BY created_at ASC";

pub const DELETE_MESSAGE: &'static str = "DELETE FROM messages WHERE id = ?1";

pub const DELETE_MESSAGES_BY_THREAD: &'static str = "DELETE FROM messages WHERE thread_id = ?1";

/// The message that saving hands back: what the caller supplied, under the
/// given thread, with the generated id and instant.
pub open spec fn saved(
    id: Seq<char>,
    thread_id: Seq<char>,
    message: NewMessageView,
    at: Timestamp,
) -> MessageView {
    MessageView {
        id,
        thread_id,
        role: message.role,
        content: message.content,
        tool_invocations: message.tool_invocations,
        created_at: at,
    }
}

/// The row written for a message: every column as text, the payload as its
/// stored text or NULL.
pub open spec fn message_row(
    id: Seq<char>,
    thread_id: Seq<char>,
    message: NewMessageView,
    stamp: Seq<char>,
) -> Seq<Option<Seq<char>>> {
    seq![
        Some(id),
        Some(thread_id),
        Some(message.role),
        Some(message.content),
        stored_text(message.tool_invocations),
        Some(stamp),
    ]
}

/// A row has a value in each column that a message cannot do without:
/// every one but the payload.
pub open spec fn message_row_complete(row: Seq<Option<Seq<char>>>) -> bool {
    &&& row.len() == MESSAGE_COLUMNS
    &&& row[0] is Some
    &&& row[1] is Some
    &&& row[2] is Some
    &&& row[3] is Some
    &&& row[5] is Some
}

/// `message` is a reading of `row`: the four text columns are taken as they
/// stand, the payload is what its column parses to (absent where it is NULL
/// or does not parse), and the timestamp is read from its text.
pub open spec fn row_reads_as_message(row: Seq<Option<Seq<char>>>, message: MessageView) -> bool {
    &&& message_row_complete(row)
    &&& message.id == row[0].unwrap()
    &&& message.thread_id == row[1].unwrap()
    &&& message.role == row[2].unwrap()
    &&& message.content == row[3].unwrap()
    &&& message.tool_invocations == loaded_payload(row[4])
    &&& reads_as(row[5].unwrap(), message.created_at)
}

/// Reading back the row that saving wrote gives the message that saving
/// handed out, for every instant that the calendar reads back as it wrote
/// it and every payload that the JSON codec reads back as it wrote it.
pub proof fn saved_message_reads_back(
    id: Seq<char>,
    thread_id: Seq<char>,
    message: NewMessageView,
    at: Timestamp,
    read: MessageView,
)
    requires
        calendar_keeps(at),
        codec_keeps(message.tool_invocations),
        row_reads_as_message(message_row(id, thread_id, message, at.text()), read),
    ensures
        read == saved(id, thread_id, message, at),
{
}

/// The values bound when a message is inserted.
pub fn new_message_params(id: &str, thread_id: &str, message: &NewMessage, stamp: &str) -> (r: Vec<
    Option<String>,
>)
    ensures
        cells(r@) =~= message_row(id@, thread_id@, message@, stamp@),
{
    let payload_text = payload::encode(&message.tool_invocations);
    vec![
        Some(id.to_owned()),
        Some(thread_id.to_owned()),
        Some(message.role.clone()),
        Some(message.content.clone()),
        payload_text,
        Some(stamp.to_owned()),
    ]
}

/// The values bound by the two statements of a save, made from one stamp:
/// first those of the insert, then those of the touch. The touch binds the
/// very stamp that the insert stores as the message's `created_at`, and the
/// thread id that the insert stores as the message's owner.
pub fn save_params(id: &str, thread_id: &str, message: &NewMessage, stamp: &str) -> (r: (
    Vec<Option<String>>,
    Vec<Option<String>>,
))
    ensures
        cells(r.0@) =~= message_row(id@, thread_id@, message@, stamp@),
        cells(r.1@) =~= seq![Some(stamp@), Some(thread_id@)],
        cells(r.1@)[0] == cells(r.0@)[5],
        cells(r.1@)[1] == cells(r.0@)[1],
{
    (new_message_params(id, thread_id, message, stamp), touch_params(stamp, thread_id))
}

/// The message held in one row.
pub fn message_from_row(row: &Vec<Option<String>>) -> (r: Result<Message, StoreError>)
    ensures
        r is Ok <==> message_row_complete(cells(row@)),
        r matches Ok(message) ==> row_reads_as_message(cells(row@), message@),
        r matches Err(e) ==> e == StoreError::MalformedRow,
{
    if row.len() != MESSAGE_COLUMNS {
        return Err(StoreError::MalformedRow);
    }
    let tool_invocations = payload::decode(&row[4]);
    let id = match &row[0] {
        Some(text) => text.clone(),
        None => {
            return Err(StoreError::MalformedRow);
        },
    };
    let thread_id = match &row[1] {
        Some(text) => text.clone(),
        None => {
            return Err(StoreError::MalformedRow);
        },
    };
    let role = match &row[2] {
        Some(text) => text.clone(),
        None => {
            return Err(StoreError::MalformedRow);
        },
    };
    let content = match &row[3] {
        Some(text) => text.clone(),
        None => {
            return Err(StoreError::MalformedRow);
        },
    };
    let created_at = match &row[5] {
        Some(text) => parse_or_now(text.as_str()),
        None => {
            return Err(StoreError::MalformedRow);
        },
    };
    Ok(Message { id, thread_id, role, content, tool_invocations, created_at })
}

/// The messages held in a run of rows, in the order of the rows. One row
/// that lacks a required value fails the whole reading; a payload that does
/// not parse does not.
pub fn messages_from_rows(rows: &Vec<Vec<Option<String>>>) -> (r: Result<Vec<Message>, StoreError>)
    ensures
        r is Ok <==> forall|i: int|
            0 <= i < rows@.len() ==> message_row_complete(cells(#[trigger] rows@[i]@)),
        r matches Ok(messages) ==> messages@.len() == rows@.len() && forall|i: int|
            0 <= i < rows@.len() ==> row_reads_as_message(
                cells(rows@[i]@),
                (#[trigger] messages@[i])@,
            ),
        r matches Err(e) ==> e == StoreError::MalformedRow,
{
    let mut messages: Vec<Message> = Vec::new();
    let mut k: usize = 0;
    while k < rows.len()
        invariant
            0 <= k <= rows@.len(),
            messages@.len() == k,
            forall|i: int| 0 <= i < k ==> message_row_complete(cells(#[trigger] rows@[i]@)),
            forall|i: int|
                0 <= i < k ==> row_reads_as_message(cells(rows@[i]@), (#[trigger] messages@[i])@),
        decreases rows@.len() - k,
    {
        match message_from_row(&rows[k]) {
            Ok(message) => {
                messages.push(message);
            },
            Err(e) => {
                return Err(e);
            },
        }
        k += 1;
    }
    Ok(messages)
}

/// Saves a message to a thread: inserts it under a fresh id at the current
/// instant ([`INSERT_MESSAGE`]), then moves the thread's `updated_at` to that
/// same instant ([`UPDATE_TIMESTAMP`]); [`save_params`] makes the values of
/// both statements from the one stamp. Both steps run on the one
/// connection, which its holder has to itself. A thread that is not there
/// fails the insert, and then nothing is touched. Hands back the message as
/// stored.
pub fn save_message(conn: &rusqlite::Connection, thread_id: &str, message: &NewMessage) -> (r:
    Result<Message, StoreError>)
    ensures
        r matches Ok(stored) ==> stored@ == saved(
            stored@.id,
            thread_id@,
            message@,
            stored@.created_at,
        ) && stored@.id.len() == id_len() && stored@.created_at.representable(),
        r matches Err(e) ==> e is Constraint || e is Engine,
{
    let id = fresh_id();
    let (now, now_text) = stamp_now();
    let (insert, touch) = save_params(id.as_str(), thread_id, message, now_text.as_str());
    match written(engine::execute(conn, INSERT_MESSAGE, &insert)) {
        Ok(()) => {},
        Err(e) => {
            return Err(e);
        },
    }
    match written(engine::execute(conn, UPDATE_TIMESTAMP, &touch)) {
        Ok(()) => {},
        Err(e) => {
            return Err(e);
        },
    }
    Ok(
        Message {
            id,
            thread_id: thread_id.to_owned(),
            role: message.role.clone(),
            content: message.content.clone(),
            tool_invocations: payload::copy(&message.tool_invocations),
            created_at: now,
        },
    )
}

/// Lists a thread's messages, in the order the engine returns them for
/// "oldest first": runs [`SELECT_MESSAGES`] with the thread's id and reads
/// the rows with [`messages_from_rows`]. A thread with no messages, or no
/// such thread, is an empty list, not an error.
pub fn get_messages(conn: &rusqlite::Connection, thread_id: &str) -> (r: Result<
    Vec<Message>,
    StoreError,
>)
    ensures
        r matches Ok(messages) ==> forall|i: int|
            0 <= i < messages@.len() ==> (#[trigger] messages@[i])@.created_at.representable(),
        r matches Err(e) ==> e is Constraint || e is Engine || e is MalformedRow,
{
    let mut stmt = match engine::checked(engine::prepare(conn, SELECT_MESSAGES)) {
        Ok(stmt) => stmt,
        Err(e) => {
            return Err(e);
        },
    };
    let params = one_text(thread_id);
    match engine::checked(engine::query_text_rows(&mut stmt, &params, MESSAGE_COLUMNS)) {
        Ok(rows) => messages_from_rows(&rows),
        Err(e) => Err(e),
    }
}

/// Deletes one message by id: runs [`DELETE_MESSAGE`]. A message that is
/// not there makes this a successful no-op.
pub fn delete_message(conn: &rusqlite::Connection, message_id: &str) -> (r: Result<
    (),
    StoreError,
>)
    ensures
        r matches Err(e) ==> e is Constraint || e is Engine,
{
    let params = one_text(message_id);
    written(engine::execute(conn, DELETE_MESSAGE, &params))
}

/// Deletes every message of a thread: runs [`DELETE_MESSAGES_BY_THREAD`].
/// A thread with no messages makes this a successful no-op.
pub fn delete_messages_by_thread(conn: &rusqlite::Connection, thread_id: &str) -> (r: Result<
    (),
    StoreError,
>)
    ensures
        r matches Err(e) ==> e is Constraint || e is Engine,
{
    let params = one_text(thread_id);
    written(engine::execute(conn, DELETE_MESSAGES_BY_THREAD, &params))
}

} // verus!

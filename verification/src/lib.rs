//! Local persistence for a desktop chat application.
//!
//! Conversation threads and their messages live in one embedded SQLite file,
//! reached through a single connection behind a lock. Credentials live in the
//! operating system's secret store.
//!
//! What this crate decides is verified: which statement is run with which
//! values, how a row is read into a record, what counts as success, as
//! absence and as failure. What SQLite, the clock, the identifier generator,
//! the JSON codec and the secret store do is taken on trust; each call into
//! them is a small wrapper that says what is assumed of it, and most assume
//! nothing.

pub mod credentials;
pub mod db;

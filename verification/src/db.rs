//! The embedded relational store: schema, connection guard, and the thread,
//! message and settings-ledger operations.

pub mod clock;
pub mod engine;
pub mod error;
pub mod guard;
pub mod ident;
pub mod messages;
pub mod payload;
pub mod row;
pub mod schema;
pub mod settings;
pub mod threads;

pub use guard::Database;
pub use messages::{Message, NewMessage};
pub use threads::Thread;

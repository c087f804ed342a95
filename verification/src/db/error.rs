//! The one error type that every store operation returns.

use vstd::prelude::*;

verus! {

/// Why a store operation failed.
#[derive(Debug, Clone, PartialEq, Eq)]
pub enum StoreError {
    /// The engine refused a statement because it would break a table
    /// constraint, such as a message naming a thread that does not exist.
    /// Carries the engine's own description.
    Constraint(String),
    /// Any other failure that the engine reported. Carries its description.
    Engine(String),
    /// A row came back without a value in a column that every row must fill.
    MalformedRow,
    /// An earlier holder of the connection lock panicked.
    LockPoisoned,
}

/// The text shown for a row that lacks a required value.
pub open spec fn malformed_row_text() -> Seq<char> {
    "stored row lacks a required value"@
}

/// The text shown for a poisoned connection lock.
pub open spec fn lock_poisoned_text() -> Seq<char> {
    "Database mutex poisoned"@
}

impl StoreError {
    /// The flattened, textual form of the error.
    pub open spec fn text(self) -> Seq<char> {
        match self {
            StoreError::Constraint(s) => s@,
            StoreError::Engine(s) => s@,
            StoreError::MalformedRow => malformed_row_text(),
            StoreError::LockPoisoned => lock_poisoned_text(),
        }
    }

    /// The error as the single textual message that callers outside the
    /// store are given.
    pub fn message(&self) -> (r: String)
        ensures
            r@ == self.text(),
    {
        match self {
            StoreError::Constraint(s) => s.clone(),
            StoreError::Engine(s) => s.clone(),
            StoreError::MalformedRow => "stored row lacks a required value".to_owned(),
            StoreError::LockPoisoned => "Database mutex poisoned".to_owned(),
        }
    }
}

} // verus!

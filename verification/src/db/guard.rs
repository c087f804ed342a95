//! The connection guard: the one connection to the store's file, behind a
//! lock. Every access, read or write, holds the lock, so no two operations
//! ever interleave.

use vstd::prelude::*;
use crate::db::engine;
use crate::db::error::StoreError;
use crate::db::schema;

verus! {

#[verifier::external_type_specification]
#[verifier::external_body]
pub struct ExPathBuf(std::path::PathBuf);

#[verifier::external_type_specification]
#[verifier::external_body]
#[verifier::reject_recursive_types(T)]
pub struct ExMutex<T: ?Sized>(std::sync::Mutex<T>);

#[verifier::external_type_specification]
#[verifier::external_body]
#[verifier::reject_recursive_types(T)]
pub struct ExMutexGuard<'a, T: ?Sized + 'a>(std::sync::MutexGuard<'a, T>);

/// `std::sync::Mutex::new`: a lock around `conn`.
#[verifier::external_body]
fn lock_around(conn: rusqlite::Connection) -> (r: std::sync::Mutex<rusqlite::Connection>) {
    std::sync::Mutex::new(conn)
}

/// `std::sync::Mutex::lock`: waits for the lock and takes it. It fails
/// where an earlier holder panicked while holding the lock, and then hands
/// out the guard inside the error, which the store lets go. Nothing is
/// assumed of the outcome.
#[verifier::external_body]
fn acquire<'a>(lock: &'a std::sync::Mutex<rusqlite::Connection>) -> (r: Result<
    std::sync::MutexGuard<'a, rusqlite::Connection>,
    std::sync::PoisonError<std::sync::MutexGuard<'a, rusqlite::Connection>>,
>) {
    lock.lock()
}

/// `Deref::deref` of `std::sync::MutexGuard`: the connection that the held
/// lock protects.
#[verifier::external_body]
fn held<'a>(guard: &'a std::sync::MutexGuard<'_, rusqlite::Connection>) -> (r:
    &'a rusqlite::Connection) {
    guard
}

/// The store's single connection, behind its lock. The connection is
/// reached only through a held lock.
pub struct Database {
    conn: std::sync::Mutex<rusqlite::Connection>,
}

impl Database {
    /// Opens the file at `path`, creating it if absent, and brings it to
    /// the current layout. A failure of either step is the result; there is
    /// no half-opened store.
    pub fn new(path: std::path::PathBuf) -> (r: Result<Database, StoreError>)
        ensures
            r matches Err(e) ==> e is Constraint || e is Engine,
    {
        let conn = match engine::checked(engine::open(path)) {
            Ok(conn) => conn,
            Err(e) => {
                return Err(e);
            },
        };
        match schema::init(&conn) {
            Ok(()) => Ok(Database { conn: lock_around(conn) }),
            Err(e) => Err(e),
        }
    }

    /// Takes the lock, waiting for any other holder to let go. The lock is
    /// released when the guard is dropped. Fails only where an earlier
    /// holder panicked.
    pub fn conn(&self) -> (r: Result<std::sync::MutexGuard<'_, rusqlite::Connection>, StoreError>)
        ensures
            r matches Err(e) ==> e == StoreError::LockPoisoned,
    {
        unpoisoned(acquire(&self.conn))
    }

    /// Runs `f` on the connection with the lock held, and releases the lock
    /// when `f` returns. Fails, without running `f`, only where an earlier
    /// holder panicked.
    pub fn with_connection<R, F: FnOnce(&rusqlite::Connection) -> R>(&self, f: F) -> (r: Result<
        R,
        StoreError,
    >)
        requires
            forall|c: &rusqlite::Connection| f.requires((c,)),
        ensures
            match r {
                Ok(v) => exists|c: &rusqlite::Connection| #[trigger] f.ensures((c,), v),
                Err(e) => e == StoreError::LockPoisoned,
            },
    {
        match self.conn() {
            Ok(guard) => {
                let conn = held(&guard);
                let value = f(conn);
                let out: Result<R, StoreError> = Ok(value);
                assert(out matches Ok(v) && f.ensures((conn,), v));
                out
            },
            Err(e) => Err(e),
        }
    }
}

#[verifier::external_type_specification]
#[verifier::external_body]
#[verifier::reject_recursive_types(T)]
pub struct ExPoisonError<T>(std::sync::PoisonError<T>);

/// What the store makes of an attempt to take a lock: a guard is handed on
/// as it came; a poisoned lock is an error, and the guard that came with it
/// is let go, so that nothing is done under a lock whose holder panicked.
pub fn unpoisoned<G>(outcome: Result<G, std::sync::PoisonError<G>>) -> (r: Result<G, StoreError>)
    ensures
        match outcome {
            Ok(guard) => r == Ok::<G, StoreError>(guard),
            Err(_) => r == Err::<G, StoreError>(StoreError::LockPoisoned),
        },
{
    match outcome {
        Ok(guard) => Ok(guard),
        Err(_) => Err(StoreError::LockPoisoned),
    }
}

} // verus!

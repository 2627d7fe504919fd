//! The lock that serialises access to the one connection. These are the
//! calls into `std::sync` that have no specification of their own; nothing is
//! claimed of them beyond their types.

use std::sync::{Mutex, MutexGuard, PoisonError};
use vstd::prelude::*;

verus! {

/// `std::sync::Mutex`.
#[verifier::external_type_specification]
#[verifier::external_body]
#[verifier::reject_recursive_types(T)]
pub struct ExMutex<T: ?Sized>(Mutex<T>);

/// `std::sync::MutexGuard`: the lock, held until the guard is dropped.
#[verifier::external_type_specification]
#[verifier::external_body]
#[verifier::reject_recursive_types(T)]
pub struct ExMutexGuard<'a, T: ?Sized + 'a>(MutexGuard<'a, T>);

/// `std::sync::PoisonError`: what a lock gives whose holder panicked.
#[verifier::external_type_specification]
#[verifier::external_body]
#[verifier::reject_recursive_types(T)]
pub struct ExPoisonError<T>(PoisonError<T>);

/// Calls `std::sync::Mutex::new`.
#[verifier::external_body]
pub(crate) fn new_mutex(conn: rusqlite::Connection) -> Mutex<rusqlite::Connection> {
    Mutex::new(conn)
}

/// Calls `std::sync::Mutex::lock`: waits until the lock is free and takes it.
/// The caller must not hold the lock already: the call would then never
/// return.
#[verifier::external_body]
pub(crate) fn lock<'a>(mutex: &'a Mutex<rusqlite::Connection>) -> Result<
    MutexGuard<'a, rusqlite::Connection>,
    PoisonError<MutexGuard<'a, rusqlite::Connection>>,
> {
    mutex.lock()
}

/// Calls `std::sync::PoisonError::into_inner`: the guard that a poisoned lock
/// still hands out.
#[verifier::external_body]
pub(crate) fn into_guard<'a>(
    poisoned: PoisonError<MutexGuard<'a, rusqlite::Connection>>,
) -> MutexGuard<'a, rusqlite::Connection> {
    poisoned.into_inner()
}

/// Calls `Deref::deref` on the guard: the connection that it protects.
#[verifier::external_body]
pub(crate) fn guarded<'g>(
    guard: &'g MutexGuard<'_, rusqlite::Connection>,
) -> &'g rusqlite::Connection {
    guard
}

} // verus!

//! The reader/writer lock of the standard library, as far as the storage uses it.
//!
//! Nothing here is proved. What another thread left under the lock cannot be known before the
//! lock is taken, so taking the lock and reading through a guard promise nothing of what they
//! return: the code that calls them is verified for every table that a guard may give access
//! to. Only the making of a lock says something: which table the lock was made around.

use vstd::prelude::*;
use std::sync::PoisonError;
use std::sync::RwLock;
use std::sync::RwLockReadGuard;
use std::sync::RwLockWriteGuard;
use crate::table::{RedirectTable, RedirectView};

verus! {

/// `std::sync::RwLock`, opaque.
#[verifier::external_type_specification]
#[verifier::external_body]
#[verifier::reject_recursive_types(T)]
pub struct ExRwLock<T: ?Sized>(RwLock<T>);

/// `std::sync::RwLockReadGuard`, opaque.
#[verifier::external_type_specification]
#[verifier::external_body]
#[verifier::reject_recursive_types(T)]
pub struct ExRwLockReadGuard<'a, T: ?Sized>(RwLockReadGuard<'a, T>);

/// `std::sync::RwLockWriteGuard`, opaque.
#[verifier::external_type_specification]
#[verifier::external_body]
#[verifier::reject_recursive_types(T)]
pub struct ExRwLockWriteGuard<'a, T: ?Sized + 'a>(RwLockWriteGuard<'a, T>);

/// `std::sync::PoisonError`, opaque.
#[verifier::external_type_specification]
#[verifier::external_body]
#[verifier::reject_recursive_types(T)]
pub struct ExPoisonError<T>(PoisonError<T>);

/// The records of the table that a lock was made around. This is what the lock held when it
/// was made, not what it holds now: a store through a write guard changes the one and not
/// the other.
pub uninterp spec fn made_around(lock: RwLock<RedirectTable>) -> Map<Seq<char>, RedirectView>;

/// Calls `RwLock::new`: an unlocked lock that holds `table`. The contract claims that the lock
/// was made around the records of `table`, and nothing else.
#[verifier::external_body]
pub(crate) fn new_lock(table: RedirectTable) -> (lock: RwLock<RedirectTable>)
    ensures
        made_around(lock) == table@,
{
    RwLock::new(table)
}

/// Calls `RwLock::read`: waits until no writer holds the lock and returns shared access, or
/// the poison error if a writer panicked while holding it. The caller must not hold the lock
/// already, or the call may not return.
#[verifier::external_body]
pub(crate) fn read_lock<'a, T>(lock: &'a RwLock<T>) -> Result<
    RwLockReadGuard<'a, T>,
    PoisonError<RwLockReadGuard<'a, T>>,
> {
    lock.read()
}

/// Calls `RwLock::write`: waits until nobody else holds the lock and returns exclusive access,
/// or the poison error if a writer panicked while holding it. The caller must not hold the lock
/// already, or the call may not return.
#[verifier::external_body]
pub(crate) fn write_lock<'a, T>(lock: &'a RwLock<T>) -> Result<
    RwLockWriteGuard<'a, T>,
    PoisonError<RwLockWriteGuard<'a, T>>,
> {
    lock.write()
}

/// Calls `Deref::deref` of the read guard: the value under the lock.
#[verifier::external_body]
pub(crate) fn guarded<'a, 'b, T>(guard: &'b RwLockReadGuard<'a, T>) -> &'b T {
    &**guard
}

/// Calls `DerefMut::deref_mut` of the write guard: the value under the lock, to be changed in
/// place.
#[verifier::external_body]
pub(crate) fn guarded_mut<'a, 'b, T>(guard: &'b mut RwLockWriteGuard<'a, T>) -> &'b mut T {
    &mut **guard
}

} // verus!

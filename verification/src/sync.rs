//! Trusted boundary around the standard library's synchronization primitives.
//!
//! The registry stores lock-protected bindings in `std::sync` locks, which
//! Verus gives no specification for.  The declarations here make those types
//! usable in verified signatures.  Nothing is claimed about the value behind
//! a lock: another thread may change it between any two operations, so the
//! only sound contracts are the ones about locking outcomes, and those are
//! surfaced through the `Result` shape of each call.

use vstd::prelude::*;
use std::sync::Arc;
use std::sync::Mutex;
use std::sync::MutexGuard;
use std::sync::PoisonError;
use std::sync::RwLock;
use std::sync::RwLockReadGuard;
use std::sync::RwLockWriteGuard;

verus! {

#[verifier::external_type_specification]
#[verifier::external_body]
#[verifier::reject_recursive_types(T)]
pub struct ExMutex<T: ?Sized>(Mutex<T>);

#[verifier::external_type_specification]
#[verifier::external_body]
#[verifier::reject_recursive_types(T)]
pub struct ExMutexGuard<'a, T: ?Sized + 'a>(MutexGuard<'a, T>);

#[verifier::external_type_specification]
#[verifier::external_body]
#[verifier::reject_recursive_types(T)]
pub struct ExRwLock<T: ?Sized>(RwLock<T>);

#[verifier::external_type_specification]
#[verifier::external_body]
#[verifier::reject_recursive_types(T)]
pub struct ExRwLockReadGuard<'a, T: ?Sized>(RwLockReadGuard<'a, T>);

#[verifier::external_type_specification]
#[verifier::external_body]
#[verifier::reject_recursive_types(T)]
pub struct ExRwLockWriteGuard<'a, T: ?Sized + 'a>(RwLockWriteGuard<'a, T>);

#[verifier::external_type_specification]
#[verifier::external_body]
#[verifier::reject_recursive_types(T)]
pub struct ExPoisonError<T>(PoisonError<T>);

/// Relies on Mutex::lock: blocks until the lock is acquired; fails exactly
/// when the lock is poisoned.
pub assume_specification<'a, T: ?Sized>[ std::sync::Mutex::<T>::lock ](m: &'a Mutex<T>) -> Result<
    MutexGuard<'a, T>,
    PoisonError<MutexGuard<'a, T>>,
>;

/// Relies on RwLock::read: blocks until shared access is granted; fails
/// exactly when the lock is poisoned.
pub assume_specification<'a, T: ?Sized>[ std::sync::RwLock::<T>::read ](l: &'a RwLock<T>) -> Result<
    RwLockReadGuard<'a, T>,
    PoisonError<RwLockReadGuard<'a, T>>,
>;

/// Relies on RwLock::write: blocks until exclusive access is granted; fails
/// exactly when the lock is poisoned.
pub assume_specification<'a, T: ?Sized>[ std::sync::RwLock::<T>::write ](l: &'a RwLock<T>) -> Result<
    RwLockWriteGuard<'a, T>,
    PoisonError<RwLockWriteGuard<'a, T>>,
>;

/// Relies on MutexGuard's Deref: reads the value the lock currently holds.
#[verifier::external_body]
pub fn mutex_guard_deref<'a, 'b, T>(g: &'b MutexGuard<'a, T>) -> &'b T {
    &**g
}

/// Relies on RwLockReadGuard's Deref: reads the value the lock currently holds.
#[verifier::external_body]
pub fn rwlock_read_guard_deref<'a, 'b, T>(g: &'b RwLockReadGuard<'a, T>) -> &'b T {
    &**g
}

/// Relies on RwLockWriteGuard's Deref: reads the value the lock currently holds.
#[verifier::external_body]
pub fn rwlock_write_guard_deref<'a, 'b, T>(g: &'b RwLockWriteGuard<'a, T>) -> &'b T {
    &**g
}

/// Relies on MutexGuard's DerefMut: exclusive access to the value behind the lock.
#[verifier::external_body]
pub fn mutex_guard_deref_mut<'a, 'b, T>(g: &'b mut MutexGuard<'a, T>) -> &'b mut T {
    &mut **g
}

/// Relies on RwLockWriteGuard's DerefMut: exclusive access to the value behind the lock.
#[verifier::external_body]
pub fn rwlock_write_guard_deref_mut<'a, 'b, T>(g: &'b mut RwLockWriteGuard<'a, T>) -> &'b mut T {
    &mut **g
}

/// Relies on Arc::clone: a new handle to the same shared value.
#[verifier::external_body]
pub fn arc_clone<T>(a: &Arc<T>) -> (r: Arc<T>)
    ensures
        r == *a,
{
    Arc::clone(a)
}

/// Relies on Arc's Deref: a shared reference to the value behind the handle.
#[verifier::external_body]
pub fn arc_deref<'a, T>(a: &'a Arc<T>) -> (r: &'a T)
    ensures
        *r == *a,
{
    &**a
}

} // verus!

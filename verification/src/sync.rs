//! The lock of the standard library, as far as this layer uses it.
//!
//! What a lock holds can change whenever it is not held, so nothing is said of
//! the value that a guard gives access to: code that takes a lock is verified
//! for every value that it may find there.

use std::ops::Deref;
use std::ops::DerefMut;
use std::sync::Arc;
use std::sync::Mutex;
use std::sync::MutexGuard;
use vstd::prelude::*;

verus! {

/// `std::sync::Mutex`, opaque.
#[verifier::external_type_specification]
#[verifier::external_body]
#[verifier::reject_recursive_types(T)]
pub struct ExMutex<T: ?Sized>(Mutex<T>);

/// `std::sync::MutexGuard`, opaque.
#[verifier::external_type_specification]
#[verifier::external_body]
#[verifier::reject_recursive_types(T)]
pub struct ExMutexGuard<'a, T: ?Sized + 'a>(MutexGuard<'a, T>);

/// `Mutex::new`: a lock around `value`. Nothing is claimed of the result.
#[verifier::external_body]
pub(crate) fn mutex_new<T>(value: T) -> (lock: Mutex<T>) {
    Mutex::new(value)
}

/// `Mutex::lock`: waits for the lock and returns its guard, or `None` where the
/// lock is poisoned. Nothing is claimed of which of the two it is. std lets the
/// call panic or never return where the calling thread holds the lock already;
/// no path of this library takes a lock that it holds, but a callback that
/// calls back into the state it is called from would.
#[verifier::external_body]
pub(crate) fn mutex_lock<'a, T>(lock: &'a Mutex<T>) -> (guard: Option<MutexGuard<'a, T>>) {
    lock.lock().ok()
}

/// `Mutex::try_lock`: the lock's guard where the lock is free, else `None`, as
/// for a poisoned lock. It does not wait, and std documents no panic of it.
/// Nothing is claimed of which of the two it is.
#[verifier::external_body]
pub(crate) fn mutex_try_lock<'a, T>(lock: &'a Mutex<T>) -> (guard: Option<MutexGuard<'a, T>>)
    opens_invariants none
    no_unwind
{
    lock.try_lock().ok()
}

/// `Deref::deref` of a guard: the value under the lock. Nothing is claimed of it.
#[verifier::external_body]
pub(crate) fn guard_ref<'a, 'b, T>(guard: &'b MutexGuard<'a, T>) -> (value: &'b T) {
    guard.deref()
}

/// `DerefMut::deref_mut` of a guard: the value under the lock, to be changed in
/// place. Nothing is claimed of it but that the call does not unwind.
#[verifier::external_body]
pub(crate) fn guard_mut<'a, 'b, T>(guard: &'b mut MutexGuard<'a, T>) -> (value: &'b mut T)
    opens_invariants none
    no_unwind
{
    guard.deref_mut()
}

/// `Arc::clone`: one more reference to the same value.
#[verifier::external_body]
pub(crate) fn arc_share<T>(shared: &Arc<T>) -> (other: Arc<T>)
    ensures
        other == *shared,
{
    Arc::clone(shared)
}

} // verus!

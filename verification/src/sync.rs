//! The standard library's mutex and shared pointer, as far as this crate
//! uses them.
//!
//! What another thread did to a value behind a lock cannot be known, so none
//! of these items promises anything about that value.
//!
//! The crate holds a guard only while it runs a step of its own verified
//! code on the guarded value. No closure, no method of a type parameter and
//! no other locking function is called with a guard held, and no guarded
//! value is dropped with it.

use std::sync::Arc;
use std::sync::Mutex;
use std::sync::MutexGuard;
use vstd::prelude::*;

verus! {

/// `std::sync::Mutex`, opaque to the verifier.
#[verifier::external_type_specification]
#[verifier::external_body]
#[verifier::reject_recursive_types(T)]
pub struct ExMutex<T: ?Sized>(Mutex<T>);

/// `std::sync::MutexGuard`, opaque to the verifier.
#[verifier::external_type_specification]
#[verifier::external_body]
#[verifier::reject_recursive_types(T)]
pub struct ExMutexGuard<'a, T: ?Sized + 'a>(MutexGuard<'a, T>);

/// `Mutex::new`: a new, unlocked mutex around `value`. Nothing is claimed of
/// the result, since other threads may change what it guards.
#[verifier::external_body]
pub(crate) fn new_mutex<T>(value: T) -> (mutex: Mutex<T>) {
    Mutex::new(value)
}

/// `Mutex::lock`: blocks until the lock is held and returns its guard.
///
/// The standard library lets the call fail once a thread has panicked with
/// the guard held, and leaves open what happens when the calling thread
/// holds the lock already. Neither can arise for the mutexes of this crate,
/// which are private to it: a guard is held only for one step of verified
/// code, which does not panic and does not lock.
#[verifier::external_body]
pub(crate) fn lock<'a, T>(mutex: &'a Mutex<T>) -> (guard: MutexGuard<'a, T>) {
    mutex.lock().expect("Mutex was poisoned")
}

/// `DerefMut::deref_mut` of a guard: the value behind the lock. Nothing is
/// claimed of what it holds.
#[verifier::external_body]
pub(crate) fn guarded<'a, 'b, T>(guard: &'a mut MutexGuard<'b, T>) -> (value: &'a mut T) {
    &mut **guard
}

/// `Arc::clone`: another pointer to the same allocation. The contract claims
/// that the result points to the value that the argument points to.
#[verifier::external_body]
pub(crate) fn share<T>(pointer: &Arc<T>) -> (shared: Arc<T>)
    ensures
        shared == *pointer,
{
    Arc::clone(pointer)
}

} // verus!

//! The standard mutex as this crate uses it: taken before the engine is
//! called, cleared of poison, and left when the guard goes out of scope.

use std::sync::{Mutex, MutexGuard, PoisonError};
use vstd::prelude::*;

verus! {

/// `std::sync::Mutex`.
#[verifier::external_type_specification]
#[verifier::external_body]
#[verifier::reject_recursive_types(T)]
pub struct ExMutex<T: ?Sized>(Mutex<T>);

/// `std::sync::MutexGuard`: the lock as long as it is held.
#[verifier::external_type_specification]
#[verifier::external_body]
#[verifier::reject_recursive_types(T)]
pub struct ExMutexGuard<'a, T: ?Sized + 'a>(MutexGuard<'a, T>);

/// `std::sync::PoisonError`: what a lock hands out after a holder panicked.
#[verifier::external_type_specification]
#[verifier::external_body]
#[verifier::reject_recursive_types(T)]
pub struct ExPoisonError<T>(PoisonError<T>);

/// `Mutex::new`: a free lock around `value`. Nothing is claimed of it.
#[verifier::external_body]
pub(crate) fn mutex_new<T>(value: T) -> (mutex: Mutex<T>) {
    Mutex::new(value)
}

/// `Mutex::lock`: waits until the lock is free and takes it. Nothing is
/// claimed of what it guards, which any earlier holder may have changed. A
/// thread that holds the lock must not ask for it again; no function of this
/// crate does.
#[verifier::external_body]
pub(crate) fn mutex_lock<'a, T>(mutex: &'a Mutex<T>) -> (locked: Result<
    MutexGuard<'a, T>,
    PoisonError<MutexGuard<'a, T>>,
>) {
    mutex.lock()
}

/// `PoisonError::into_inner`: the guard that the error carries.
#[verifier::external_body]
pub(crate) fn poison_into_inner<T>(poisoned: PoisonError<T>) -> (inner: T) {
    poisoned.into_inner()
}

/// `DerefMut::deref_mut` of `MutexGuard`: what the lock guards, for as long
/// as the guard is borrowed.
#[verifier::external_body]
pub(crate) fn guard_deref_mut<'a, 'b, T>(guard: &'a mut MutexGuard<'b, T>) -> (guarded: &'a mut T) {
    &mut **guard
}

/// Takes the lock. A holder that panicked leaves the lock poisoned; the poison
/// is cleared here, so that one failure does not shut out every later caller.
pub(crate) fn enter<'a, T>(mutex: &'a Mutex<T>) -> (guard: MutexGuard<'a, T>) {
    match mutex_lock(mutex) {
        Ok(guard) => guard,
        Err(poisoned) => poison_into_inner(poisoned),
    }
}

} // verus!

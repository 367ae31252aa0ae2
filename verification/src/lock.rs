//! The lock and the shared pointer that let every clone of a handle reach one
//! slot.
//!
//! Both belong to `std::sync`. Nothing in this file is proved: each item
//! states what is taken on trust about them.

use std::sync::{Arc, LockResult, Mutex, MutexGuard, PoisonError};
use vstd::prelude::*;

verus! {

/// `std::sync::Mutex`. Opaque here: what it guards is reached only through a
/// guard.
#[verifier::external_type_specification]
#[verifier::external_body]
#[verifier::reject_recursive_types(T)]
pub struct ExMutex<T: ?Sized>(Mutex<T>);

/// `std::sync::MutexGuard`, which holds the lock until it is dropped. Opaque
/// here.
#[verifier::external_type_specification]
#[verifier::external_body]
#[verifier::reject_recursive_types(T)]
pub struct ExMutexGuard<'a, T: ?Sized + 'a>(MutexGuard<'a, T>);

/// `std::sync::PoisonError`, with which a lock reports that an earlier holder
/// panicked. Opaque here.
#[verifier::external_type_specification]
#[verifier::external_body]
#[verifier::reject_recursive_types(T)]
pub struct ExPoisonError<T>(PoisonError<T>);

/// `Mutex::new`. Nothing is claimed of the lock.
pub assume_specification<T>[ Mutex::<T>::new ](t: T) -> Mutex<T>
;

/// Calls `Mutex::lock`, which waits until the lock is free. Nothing is
/// claimed of the guard, nor of whether the lock reports poison.
///
/// A thread that holds the lock must not take it again: the call may then
/// panic or never return. No contract can say which thread holds a lock, so
/// this stays private to the library, whose one caller lets the guard go
/// before any code of the library's user runs.
#[verifier::external_body]
pub(crate) fn lock_up<'a, V>(lock: &'a Mutex<V>) -> (held: LockResult<MutexGuard<'a, V>>) {
    lock.lock()
}

/// `PoisonError::into_inner`. Nothing is claimed of what was inside.
pub assume_specification<T>[ PoisonError::<T>::into_inner ](error: PoisonError<T>) -> T
;

/// Calls `DerefMut::deref_mut` of the guard: exclusive access to what the
/// lock guards, for as long as the guard is borrowed. Nothing is claimed of
/// the value found there, which is whatever the last holder left.
#[verifier::external_body]
pub(crate) fn guarded<'g, 'a, V>(guard: &'g mut MutexGuard<'a, V>) -> (value: &'g mut V) {
    &mut **guard
}

/// Calls `Arc::clone`. Claimed: the new pointer leads to the same value.
#[verifier::external_body]
pub(crate) fn share<V>(shared: &Arc<V>) -> (again: Arc<V>)
    ensures
        again == shared,
{
    Arc::clone(shared)
}

} // verus!

use vstd::prelude::*;

use std::sync::{Mutex, MutexGuard, TryLockError};

verus! {

#[verifier::external_type_specification]
#[verifier::external_body]
#[verifier::reject_recursive_types(T)]
pub struct ExMutex<T: ?Sized>(Mutex<T>);

#[verifier::external_type_specification]
#[verifier::external_body]
#[verifier::reject_recursive_types(T)]
pub struct ExMutexGuard<'a, T: ?Sized + 'a>(MutexGuard<'a, T>);

/// Relies on `Mutex::new`: a lock, not held, around `t`.
pub assume_specification<T>[ Mutex::<T>::new ](t: T) -> Mutex<T>;

/// Relies on `Mutex::try_lock`: the lock's guard if the lock was free, `None`
/// if another holder had it. It never waits and never panics, also when the
/// calling thread holds the lock already. A lock that a panicking holder
/// poisoned is taken all the same.
#[verifier::external_body]
pub(crate) fn try_enter<T>(m: &Mutex<T>) -> Option<MutexGuard<'_, T>> {
    match m.try_lock() {
        Ok(g) => Some(g),
        Err(TryLockError::Poisoned(e)) => Some(e.into_inner()),
        Err(TryLockError::WouldBlock) => None,
    }
}

/// Relies on `Deref` for `MutexGuard`: the value the held lock protects.
#[verifier::external_body]
pub(crate) fn inside<'b, 'a, T>(g: &'b MutexGuard<'a, T>) -> &'b T {
    &**g
}

/// Relies on `DerefMut` for `MutexGuard`: the value the held lock protects,
/// for writing.
#[verifier::external_body]
pub(crate) fn inside_mut<'b, 'a, T>(g: &'b mut MutexGuard<'a, T>) -> &'b mut T {
    &mut **g
}

} // verus!

use vstd::prelude::*;

use std::sync::{Mutex, MutexGuard};

use crate::mutex::{inside, inside_mut, try_enter};

verus! {

/// A mutual-exclusion lock over a payload, for short critical sections.
///
/// The payload sits in a `Mutex`, which is both the cell that lets a shared
/// reference reach it and the flag that is taken with acquire and given back
/// with release ordering. An attempt to take it never waits: a caller that
/// must have the lock repeats the attempt, spinning, until it succeeds. An
/// attempt by the thread that holds the lock always fails, so such a caller
/// spins forever: the lock is not re-entrant. The payload is destroyed with
/// the lock.
#[verifier::reject_recursive_types(T)]
pub struct SpinLock<T> {
    value: Mutex<T>,
}

/// Exclusive access to a locked payload; the lock is released when the guard
/// is dropped, on every path out of its scope.
#[verifier::reject_recursive_types(T)]
pub struct Guard<'a, T> {
    held: MutexGuard<'a, T>,
}

impl<T> SpinLock<T> {
    /// An unlocked lock holding `value`.
    pub fn new(value: T) -> Self {
        SpinLock { value: Mutex::new(value) }
    }

    /// Takes the lock if it is free and returns the guard through which the
    /// payload is reached; `None` if another guard holds it.
    pub fn try_lock(&self) -> Option<Guard<'_, T>> {
        match try_enter(&self.value) {
            Some(held) => Some(Guard { held }),
            None => None,
        }
    }
}

impl<'a, T> Guard<'a, T> {
    /// The payload.
    pub fn get(&self) -> &T {
        inside(&self.held)
    }

    /// The payload, for reading and writing in place.
    pub fn get_mut(&mut self) -> &mut T {
        inside_mut(&mut self.held)
    }

    /// Puts `value` in the payload's place and returns the payload.
    pub fn replace(&mut self, value: T) -> T {
        let mut out = value;
        std::mem::swap(inside_mut(&mut self.held), &mut out);
        out
    }
}

} // verus!

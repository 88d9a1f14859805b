//! The locks and condition variables of the standard library, as this crate
//! uses them.
//!
//! Everything in this file is believed, not proved. Nothing here claims to know
//! what a lock holds: a value behind a lock is shared with other threads, and
//! all that verified code learns of it is what it reads through the guard while
//! it holds the lock.

use std::sync::{Condvar, Mutex, MutexGuard};
use vstd::prelude::*;

verus! {

/// `std::sync::Mutex`, opaque to the verifier.
#[verifier::external_type_specification]
#[verifier::external_body]
#[verifier::reject_recursive_types(T)]
pub struct ExMutex<T: ?Sized>(std::sync::Mutex<T>);

/// `std::sync::MutexGuard`, opaque to the verifier.
#[verifier::external_type_specification]
#[verifier::external_body]
#[verifier::reject_recursive_types(T)]
pub struct ExMutexGuard<'a, T: ?Sized + 'a>(std::sync::MutexGuard<'a, T>);

/// `std::sync::Condvar`, opaque to the verifier.
#[verifier::external_type_specification]
#[verifier::external_body]
pub struct ExCondvar(std::sync::Condvar);

/// `Mutex::new` wraps a value in a new, unlocked mutex. Nothing is claimed of
/// the result.
pub assume_specification<T>[ Mutex::<T>::new ](value: T) -> (mutex: Mutex<T>);

/// `Condvar::new` makes a condition variable that no thread waits on. Nothing
/// is claimed of the result.
pub assume_specification[ Condvar::new ]() -> (cvar: Condvar);

/// `Condvar::notify_all` wakes every thread that waits on the condition
/// variable. It returns nothing and does not panic.
#[verifier::external_body]
pub(crate) fn notify_all(cvar: &Condvar)
    opens_invariants none
    no_unwind
{
    cvar.notify_all();
}

/// `Mutex::lock`: blocks until the calling thread holds the lock and returns
/// its guard. A poisoned lock is entered all the same, so the call does not
/// panic on one. Nothing is claimed of the value behind the guard.
///
/// The call does not return while another thread holds the lock, and does not
/// return or panics where the calling thread holds it already. No guard leaves
/// this crate: each function that takes a lock gives it up before it returns,
/// and takes no lock while it holds one. So no thread asks for a lock that it
/// holds. While a lock is held only code of this crate and of the standard
/// library runs, none that a caller supplies, so no lock is poisoned either.
#[verifier::external_body]
pub(crate) fn lock<'a, T>(mutex: &'a Mutex<T>) -> (guard: MutexGuard<'a, T>)
    opens_invariants none
    no_unwind
{
    match mutex.lock() {
        Ok(guard) => guard,
        Err(poisoned) => poisoned.into_inner(),
    }
}

/// `Deref::deref` of a `MutexGuard`: the value behind the lock, to read for as
/// long as the guard is borrowed. Nothing is claimed of that value.
#[verifier::external_body]
pub(crate) fn peek<'a, 'b, T>(guard: &'a MutexGuard<'b, T>) -> (value: &'a T) {
    &**guard
}

/// `DerefMut::deref_mut` of a `MutexGuard`: the value behind the lock, for as
/// long as the guard is borrowed. Nothing is claimed of that value.
#[verifier::external_body]
pub(crate) fn guarded<'a, 'b, T>(guard: &'a mut MutexGuard<'b, T>) -> (value: &'a mut T)
    opens_invariants none
    no_unwind
{
    &mut **guard
}

} // verus!

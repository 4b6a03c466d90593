//! Trusted bindings to the mutual-exclusion lock and condition variable of
//! `std::sync`.
//!
//! Verus has no model of threads, scheduling or wall-clock time, so each
//! declaration here states only what holds of every outcome of the call; the
//! blocking, waking and timing behaviour itself is std's. Lock poisoning (a
//! prior holder failed while holding the lock) is propagated by panicking
//! inside the wrappers, as the only safe choice: the protected value's
//! invariants may have been left broken by the failed holder.

use std::sync::Condvar;
use std::sync::Mutex;
use std::sync::MutexGuard;
use std::time::Duration;
use vstd::prelude::*;

verus! {

#[verifier::external_type_specification]
#[verifier::external_body]
#[verifier::reject_recursive_types(T)]
pub struct ExMutex<T: ?Sized>(Mutex<T>);

#[verifier::external_type_specification]
#[verifier::external_body]
pub struct ExCondvar(Condvar);

#[verifier::external_type_specification]
#[verifier::external_body]
#[verifier::reject_recursive_types(T)]
pub struct ExMutexGuard<'a, T: ?Sized + 'a>(MutexGuard<'a, T>);

/// Relies on `Mutex::new`: wraps the value in a fresh, unlocked mutex.
#[verifier::external_body]
pub(crate) fn mutex_new<T>(val: T) -> Mutex<T> {
    Mutex::new(val)
}

/// Relies on `Condvar::new`: a fresh condition variable with no waiters.
#[verifier::external_body]
pub(crate) fn condvar_new() -> Condvar {
    Condvar::new()
}

/// Relies on `Mutex::lock`: blocks the calling thread until the lock is
/// free, then grants it exclusive access through the returned guard.
/// A poisoned lock is propagated by panicking.
#[verifier::external_body]
pub(crate) fn mutex_lock<'a, T>(mutex: &'a Mutex<T>) -> MutexGuard<'a, T> {
    mutex.lock().unwrap()
}

/// Relies on `Condvar::wait`: atomically releases the guard's lock and
/// blocks the calling thread until it is notified (or woken spuriously),
/// then reacquires the lock and hands the guard back. A poisoned lock is
/// propagated by panicking.
#[verifier::external_body]
pub(crate) fn condvar_wait<'a, T>(cvar: &Condvar, guard: MutexGuard<'a, T>) -> MutexGuard<'a, T> {
    cvar.wait(guard).unwrap()
}

/// Relies on `Condvar::wait_timeout`: as `condvar_wait`, but the block also
/// ends once `dur` has elapsed. The flag is true exactly when the wait ended
/// because the timeout elapsed rather than by a wakeup; which of the two
/// happens depends on scheduling and the clock, so nothing more is promised
/// of it. A poisoned lock is propagated by panicking.
#[verifier::external_body]
pub(crate) fn condvar_wait_timeout<'a, T>(
    cvar: &Condvar,
    guard: MutexGuard<'a, T>,
    dur: Duration,
) -> (MutexGuard<'a, T>, bool) {
    let (guard, res) = cvar.wait_timeout(guard, dur).unwrap();
    (guard, res.timed_out())
}

/// Relies on `Condvar::notify_one`: wakes one thread blocked on this
/// condition variable, if any; a no-op when none is waiting.
pub assume_specification[ Condvar::notify_one ](cvar: &Condvar);

/// Relies on `Condvar::notify_all`: wakes every thread blocked on this
/// condition variable; a no-op when none is waiting.
pub assume_specification[ Condvar::notify_all ](cvar: &Condvar);

/// Relies on `MutexGuard`'s `Deref`: a reference to the protected value.
#[verifier::external_body]
pub(crate) fn guard_deref<'b, 'a, T>(guard: &'b MutexGuard<'a, T>) -> &'b T {
    &**guard
}

/// Relies on `MutexGuard`'s `DerefMut`: stores `val` as the protected value,
/// dropping the value stored before.
#[verifier::external_body]
pub(crate) fn guard_assign<'a, T>(guard: &mut MutexGuard<'a, T>, val: T) {
    **guard = val;
}

} // verus!

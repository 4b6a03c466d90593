//! The monitor itself: a value protected by a mutual-exclusion lock, a
//! condition variable bound to that lock, and a guard that witnesses that
//! the lock is currently held.

use crate::stdsync::condvar_new;
use crate::stdsync::condvar_wait;
use crate::stdsync::condvar_wait_timeout;
use crate::stdsync::guard_assign;
use crate::stdsync::guard_deref;
use crate::stdsync::mutex_lock;
use crate::stdsync::mutex_new;
use std::sync::Condvar;
use std::sync::Mutex;
use std::sync::MutexGuard;
use std::time::Duration;
use vstd::prelude::*;

verus! {

/// A value of type `T` that threads may only observe or mutate under
/// exclusive access, paired with a condition variable for blocking until
/// another thread signals that the value may have changed.
///
/// The condition variable is only ever used together with the lock it was
/// paired with at construction; every guard handed out by [`Monitor::with_lock`]
/// carries that pairing with it.
#[verifier::reject_recursive_types(T)]
pub struct Monitor<T> {
    mutex: Mutex<T>,
    cvar: Condvar,
}

/// Transient, exclusive possession of a monitor's lock, and hence of the
/// protected value. Created only inside [`Monitor::with_lock`]; the lock is
/// released when the critical section it was created for ends.
///
/// `model` is a ghost copy of the protected value: while the lock is held
/// nothing else can write, so the value behind the lock is exactly the value
/// this guard last observed or wrote. Every operation that acquires the lock
/// anew (construction, returning from a wait) refreshes the copy from the
/// protected value itself, and `set`/`replace` keep it in step, so reads and
/// writes within a critical section carry full value contracts.
#[verifier::reject_recursive_types(T)]
pub struct MonitorGuard<'a, T> {
    cvar: &'a Condvar,
    guard: Option<MutexGuard<'a, T>>,
    model: Ghost<T>,
}

impl<T> Monitor<T> {
    /// The condition variable this monitor was built around. Opaque: it only
    /// serves to state which monitor a guard belongs to.
    pub closed spec fn condvar(&self) -> Condvar {
        self.cvar
    }

    /// Constructs a monitor wrapping `val`. No failure mode.
    pub fn new(val: T) -> Monitor<T> {
        Monitor { mutex: mutex_new(val), cvar: condvar_new() }
    }

    /// Acquires the lock, blocking the calling thread while another thread
    /// holds it, runs `f` on a guard over the held lock, and returns `f`'s
    /// result; the lock is released when `f`'s scope ends. The contract
    /// promises that `f` is run on a held guard of this very monitor, and
    /// that the result is a result of that one call.
    pub fn with_lock<'a, U, F: FnOnce(MonitorGuard<'a, T>) -> U>(&'a self, f: F) -> (r: U)
        requires
            forall|g: MonitorGuard<'a, T>|
                g.is_held() && g.condvar() == self.condvar() ==> #[trigger] call_requires(f, (g,)),
        ensures
            exists|g: MonitorGuard<'a, T>|
                g.is_held() && g.condvar() == self.condvar() && #[trigger] call_ensures(f, (g,), r),
    {
        let g = mutex_lock(&self.mutex);
        f(MonitorGuard::new(&self.cvar, g))
    }
}

impl<'a, T> MonitorGuard<'a, T> {
    /// The guard holds the lock. True for the whole life of a guard except
    /// in the middle of a `wait`/`wait_timeout`, a window no caller can
    /// observe: every operation both finds and leaves the lock held.
    pub closed spec fn is_held(&self) -> bool {
        self.guard is Some
    }

    /// The condition variable of the monitor this guard belongs to.
    pub closed spec fn condvar(&self) -> Condvar {
        *self.cvar
    }

    /// The protected value, as this guard last observed or wrote it. While
    /// the guard holds the lock this is the monitor's value; a wait releases
    /// the lock, so returning from one refreshes it to whatever other
    /// threads left behind.
    pub closed spec fn value(&self) -> T {
        self.model@
    }

    /// Wraps a held lock and the condition variable paired with it. The
    /// caller must pass the condition variable of the monitor that `guard`'s
    /// lock belongs to: mixing monitors breaks the pairing invariant.
    pub fn new(cvar: &'a Condvar, guard: MutexGuard<'a, T>) -> (r: MonitorGuard<'a, T>)
        ensures
            r.is_held(),
            r.condvar() == *cvar,
    {
        let contents = guard_deref(&guard);
        let model: Ghost<T> = Ghost(*contents);
        MonitorGuard { cvar, guard: Some(guard), model }
    }

    /// Releases the lock, blocks the calling thread until another thread
    /// notifies this monitor, then reacquires the lock before returning.
    /// Spurious wakeups are possible: the caller must re-check the awaited
    /// predicate after `wait` returns. The protected value may have been
    /// mutated by other threads while the lock was released.
    pub fn wait(&mut self)
        requires
            old(self).is_held(),
        ensures
            final(self).is_held(),
            final(self).condvar() == old(self).condvar(),
    {
        let g = self.guard.take().unwrap();
        let g = condvar_wait(self.cvar, g);
        let contents = guard_deref(&g);
        self.model = Ghost(*contents);
        self.guard = Some(g);
    }

    /// As [`MonitorGuard::wait`], but the block also ends once `dur` has
    /// elapsed; returns true exactly when it ended by the timeout elapsing
    /// rather than by a wakeup. A wakeup is no proof the awaited predicate
    /// holds: spurious wakeups remain possible, so callers should loop,
    /// re-checking the predicate and the time left against an absolute
    /// deadline.
    pub fn wait_timeout(&mut self, dur: Duration) -> (timed_out: bool)
        requires
            old(self).is_held(),
        ensures
            final(self).is_held(),
            final(self).condvar() == old(self).condvar(),
    {
        let g = self.guard.take().unwrap();
        let (g, timed_out) = condvar_wait_timeout(self.cvar, g, dur);
        let contents = guard_deref(&g);
        self.model = Ghost(*contents);
        self.guard = Some(g);
        timed_out
    }

    /// Wakes one thread blocked in `wait`/`wait_timeout` on this monitor, if
    /// any; a no-op when none is waiting. Does not release this guard's lock.
    pub fn notify_one(&self)
        requires
            self.is_held(),
    {
        self.cvar.notify_one();
    }

    /// Wakes all threads blocked in `wait`/`wait_timeout` on this monitor;
    /// a no-op when none is waiting. Does not release this guard's lock.
    pub fn notify_all(&self)
        requires
            self.is_held(),
    {
        self.cvar.notify_all();
    }

    /// Read access to the protected value.
    ///
    /// Relies on `MutexGuard`'s `Deref`: it yields the value the lock
    /// protects, and since this guard holds the lock, that is the value the
    /// guard last observed or wrote — nothing else can write in between.
    #[verifier::external_body]
    pub fn get(&self) -> (r: &T)
        requires
            self.is_held(),
        ensures
            *r == self.value(),
    {
        self.guard.as_ref().unwrap()
    }

    /// Write access to the protected value: stores `val`, dropping the value
    /// stored before. The stored value is what every later read under this
    /// lock acquisition sees, and what the next lock holder finds.
    pub fn set(&mut self, val: T)
        requires
            old(self).is_held(),
        ensures
            final(self).is_held(),
            final(self).condvar() == old(self).condvar(),
            final(self).value() == val,
    {
        self.model = Ghost(val);
        guard_assign(self.guard.as_mut().unwrap(), val);
    }

    /// Write access that hands the previous value back: stores `val` and
    /// returns the value stored before, so a payload that cannot be copied
    /// can still be read, modified and written back.
    ///
    /// Relies on `MutexGuard`'s `DerefMut` and `std::mem::replace`: the
    /// value swapped out of the protected place is the value this guard
    /// last observed or wrote.
    #[verifier::external_body]
    pub fn replace(&mut self, val: T) -> (r: T)
        requires
            old(self).is_held(),
        ensures
            final(self).is_held(),
            final(self).condvar() == old(self).condvar(),
            r == old(self).value(),
            final(self).value() == val,
    {
        std::mem::replace(&mut **self.guard.as_mut().unwrap(), val)
    }
}

} // verus!

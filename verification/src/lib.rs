//! A monitor: mutual exclusion and condition-based waiting unified over a
//! piece of protected state.
//!
//! [`Monitor`] owns a value together with a lock and a condition variable
//! bound to that lock; [`Monitor::with_lock`] runs caller logic under
//! exclusive access, handing it a [`MonitorGuard`] through which the value
//! can be read and written and through which threads can block
//! ([`MonitorGuard::wait`], [`MonitorGuard::wait_timeout`]) until another
//! thread, holding the same lock, signals ([`MonitorGuard::notify_one`],
//! [`MonitorGuard::notify_all`]) that a state predicate may now hold.

pub use crate::monitor::Monitor;
pub use crate::monitor::MonitorGuard;

mod monitor;
mod stdsync;

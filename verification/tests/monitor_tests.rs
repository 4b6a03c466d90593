use monitor::Monitor;
use monitor::MonitorGuard;
use std::time::Duration;
use std::time::Instant;

#[test]
fn with_lock_returns_closure_result() {
    let mon = Monitor::new(41u64);
    let r = mon.with_lock(|g: MonitorGuard<u64>| *g.get() + 1);
    assert_eq!(r, 42);
}

#[test]
fn with_lock_sees_initial_value() {
    let mon = Monitor::new(false);
    let seen = mon.with_lock(|g: MonitorGuard<bool>| *g.get());
    assert!(!seen);
}

#[test]
fn set_overwrites_the_protected_value() {
    let mon = Monitor::new(1u32);
    mon.with_lock(|mut g: MonitorGuard<u32>| {
        assert_eq!(*g.get(), 1);
        g.set(2);
        assert_eq!(*g.get(), 2);
    });
}

#[test]
fn value_persists_across_critical_sections() {
    let mon = Monitor::new(0u32);
    mon.with_lock(|mut g: MonitorGuard<u32>| g.set(7));
    let seen = mon.with_lock(|g: MonitorGuard<u32>| *g.get());
    assert_eq!(seen, 7);
}

#[test]
fn counter_accumulates_over_many_sections() {
    let mon = Monitor::new(0u32);
    let mut i: u32 = 0;
    while i < 10 {
        mon.with_lock(|mut g: MonitorGuard<u32>| {
            let v = *g.get();
            g.set(v + 1);
        });
        i += 1;
    }
    let seen = mon.with_lock(|g: MonitorGuard<u32>| *g.get());
    assert_eq!(seen, 10);
}

#[test]
fn wait_timeout_with_no_notification_times_out() {
    let mon = Monitor::new(false);
    let budget = Duration::from_millis(50);
    let start = Instant::now();
    let timed_out = mon.with_lock(|mut g: MonitorGuard<bool>| g.wait_timeout(budget));
    let elapsed = start.elapsed();
    assert!(timed_out);
    assert!(elapsed >= budget);
}

#[test]
fn wait_timeout_leaves_the_guard_usable() {
    let mon = Monitor::new(5u32);
    let seen = mon.with_lock(|mut g: MonitorGuard<u32>| {
        let timed_out = g.wait_timeout(Duration::from_millis(10));
        assert!(timed_out);
        g.set(6);
        *g.get()
    });
    assert_eq!(seen, 6);
    let again = mon.with_lock(|g: MonitorGuard<u32>| *g.get());
    assert_eq!(again, 6);
}

#[test]
fn looped_wait_against_deadline_times_out_without_notification() {
    let mon = Monitor::new(false);
    let budget = Duration::from_millis(60);
    let start = Instant::now();
    let done = mon.with_lock(|mut g: MonitorGuard<bool>| {
        let mut now = start;
        while !*g.get() && now - start < budget {
            g.wait_timeout(budget - (now - start));
            now = Instant::now();
        }
        *g.get()
    });
    assert!(!done);
    assert!(start.elapsed() >= budget);
}

#[test]
fn looped_wait_reports_done_when_predicate_already_holds() {
    let mon = Monitor::new(true);
    let budget = Duration::from_millis(100);
    let start = Instant::now();
    let done = mon.with_lock(|mut g: MonitorGuard<bool>| {
        let mut now = start;
        while !*g.get() && now - start < budget {
            g.wait_timeout(budget - (now - start));
            now = Instant::now();
        }
        *g.get()
    });
    assert!(done);
    assert!(start.elapsed() < budget);
}

#[test]
fn notify_one_with_no_waiters_is_a_noop() {
    let mon = Monitor::new(3u32);
    mon.with_lock(|g: MonitorGuard<u32>| {
        g.notify_one();
        assert_eq!(*g.get(), 3);
    });
    let seen = mon.with_lock(|g: MonitorGuard<u32>| *g.get());
    assert_eq!(seen, 3);
}

#[test]
fn notify_all_with_no_waiters_is_a_noop() {
    let mon = Monitor::new(3u32);
    mon.with_lock(|g: MonitorGuard<u32>| {
        g.notify_all();
        assert_eq!(*g.get(), 3);
    });
    let seen = mon.with_lock(|g: MonitorGuard<u32>| *g.get());
    assert_eq!(seen, 3);
}

#[test]
fn notify_before_wait_does_not_wake_a_later_wait() {
    let mon = Monitor::new(false);
    let timed_out = mon.with_lock(|mut g: MonitorGuard<bool>| {
        g.notify_one();
        g.wait_timeout(Duration::from_millis(20))
    });
    assert!(timed_out);
}

#[test]
fn mutate_then_notify_under_one_lock() {
    let mon = Monitor::new(false);
    mon.with_lock(|mut g: MonitorGuard<bool>| {
        g.set(true);
        g.notify_one();
    });
    let seen = mon.with_lock(|g: MonitorGuard<bool>| *g.get());
    assert!(seen);
}

#[test]
fn replace_returns_the_value_stored_before() {
    let mon = Monitor::new(String::from("first"));
    let prev = mon.with_lock(|mut g: MonitorGuard<String>| g.replace(String::from("second")));
    assert_eq!(prev, "first");
    let seen = mon.with_lock(|g: MonitorGuard<String>| g.get().clone());
    assert_eq!(seen, "second");
}

#[test]
fn replace_supports_read_modify_write_of_non_copy_payload() {
    let mon = Monitor::new(vec![1u32, 2]);
    mon.with_lock(|mut g: MonitorGuard<Vec<u32>>| {
        let mut v = g.replace(Vec::new());
        v.push(3);
        g.set(v);
    });
    let seen = mon.with_lock(|g: MonitorGuard<Vec<u32>>| g.get().clone());
    assert_eq!(seen, vec![1, 2, 3]);
}

#[test]
fn monitor_over_non_copy_payload() {
    let mon = Monitor::new(String::new());
    mon.with_lock(|mut g: MonitorGuard<String>| g.set(String::from("ready")));
    let len = mon.with_lock(|g: MonitorGuard<String>| g.get().len());
    assert_eq!(len, 5);
}

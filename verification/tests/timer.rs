use clack_core::timer::TimerError;
use clack_core::timer::Timers;

#[test]
fn tick_fires_after_period_with_drift_correction() {
    let mut timers = Timers::new();
    let id = timers.register(100).unwrap();

    let fired = timers.tick_all(50);
    assert!(fired.is_empty());

    let fired = timers.tick_all(60);
    assert_eq!(fired.len(), 1);
    assert_eq!(fired[0], id);

    // The accumulator was reset by subtracting the period, keeping the
    // 50 + 60 - 100 = 10 ms remainder, so 90 ms remain to the next firing.
    assert_eq!(timers.smallest_duration(), Some(90));
}

#[test]
fn zero_period_is_rejected() {
    let mut timers = Timers::new();
    assert_eq!(timers.register(0), Err(TimerError::InvalidPeriod));
    assert_eq!(timers.smallest_duration(), None);
}

#[test]
fn unregister_unknown_returns_false() {
    let mut timers = Timers::new();
    let id = timers.register(100).unwrap();
    assert!(timers.unregister(id));
    assert!(!timers.unregister(id));
}

#[test]
fn unregistered_timer_never_fires() {
    let mut timers = Timers::new();
    let keep = timers.register(10).unwrap();
    let gone = timers.register(10).unwrap();
    assert!(timers.unregister(gone));

    let fired = timers.tick_all(1000);
    assert_eq!(fired.len(), 1);
    assert_eq!(fired[0], keep);
    assert!(!fired.contains(&gone));
}

#[test]
fn smallest_duration_is_minimum_remaining() {
    let mut timers = Timers::new();
    timers.register(200).unwrap();
    timers.register(50).unwrap();
    assert_eq!(timers.smallest_duration(), Some(50));
}

#[test]
fn smallest_duration_absent_without_timers() {
    let timers = Timers::new();
    assert_eq!(timers.smallest_duration(), None);
}

#[test]
fn fresh_identifiers_are_distinct() {
    let mut timers = Timers::new();
    let a = timers.register(10).unwrap();
    let b = timers.register(10).unwrap();
    let c = timers.register(10).unwrap();
    assert_ne!(a, b);
    assert_ne!(b, c);
    assert_ne!(a, c);
}

#[test]
fn firing_order_is_table_order() {
    let mut timers = Timers::new();
    let a = timers.register(10).unwrap();
    let b = timers.register(20).unwrap();
    let c = timers.register(30).unwrap();
    let fired = timers.tick_all(30);
    assert_eq!(fired, vec![a, b, c]);
}

#[test]
fn each_pass_subtracts_the_period_once() {
    let mut timers = Timers::new();
    let id = timers.register(100).unwrap();

    // A long pause fires the timer once; the large remainder makes the next
    // two passes fire immediately as the backlog drains.
    let fired = timers.tick_all(250);
    assert_eq!(fired, vec![id]);
    assert_eq!(timers.smallest_duration(), Some(0));

    let fired = timers.tick_all(0);
    assert_eq!(fired, vec![id]);

    let fired = timers.tick_all(0);
    assert!(fired.is_empty());
    assert_eq!(timers.smallest_duration(), Some(50));
}

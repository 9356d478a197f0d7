use provider_runtime::scheduler::IntervalScheduler;

#[test]
fn first_poll_fires_before_the_first_interval_elapses() {
    let mut scheduler = IntervalScheduler::new(1000, 5000);
    // Well before 5000 + 1000, the very first poll already fires.
    assert!(scheduler.poll(5001));
}

#[test]
fn fires_at_the_creation_instant() {
    let mut scheduler = IntervalScheduler::new(1000, 5000);
    assert!(scheduler.poll(5000));
}

#[test]
fn nothing_fires_before_the_period_has_passed() {
    let mut scheduler = IntervalScheduler::new(1000, 5000);
    assert!(scheduler.poll(5000));
    assert!(!scheduler.poll(5500));
    assert!(!scheduler.poll(5999));
    assert!(scheduler.poll(6000));
}

#[test]
fn delayed_ticks_are_skipped_not_replayed() {
    let mut scheduler = IntervalScheduler::new(1000, 0);
    assert!(scheduler.poll(0));
    // Delivery stalls for five and a half periods; one refresh catches up.
    assert!(scheduler.poll(5500));
    // No backlog burst: the next refresh is due a full period later.
    assert!(!scheduler.poll(5600));
    assert!(!scheduler.poll(6499));
    assert!(scheduler.poll(6500));
}

#[test]
fn stopped_scheduler_never_fires_again() {
    let mut scheduler = IntervalScheduler::new(1000, 0);
    assert!(scheduler.poll(0));
    assert!(scheduler.is_running());
    scheduler.stop();
    assert!(!scheduler.is_running());
    assert!(!scheduler.poll(1000));
    assert!(!scheduler.poll(1_000_000));
}

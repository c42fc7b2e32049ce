use rustirc::backoff::{escalate, BackoffState};

#[test]
fn schedule_follows_the_table() {
    assert_eq!(escalate(0), 5);
    assert_eq!(escalate(4), 5);
    assert_eq!(escalate(5), 10);
    assert_eq!(escalate(9), 10);
    assert_eq!(escalate(10), 20);
    assert_eq!(escalate(19), 20);
    assert_eq!(escalate(20), 30);
    assert_eq!(escalate(29), 30);
    assert_eq!(escalate(30), 60);
    assert_eq!(escalate(59), 60);
    assert_eq!(escalate(61), 150);
    assert_eq!(escalate(149), 150);
    assert_eq!(escalate(151), 300);
    assert_eq!(escalate(299), 300);
    assert_eq!(escalate(300), 360);
    assert_eq!(escalate(1000), 1060);
}

#[test]
fn schedule_passes_the_unmapped_bounds_on_by_sixty() {
    assert_eq!(escalate(60), 120);
    assert_eq!(escalate(150), 210);
}

#[test]
fn schedule_stays_at_the_largest_wait() {
    assert_eq!(escalate(u64::MAX), u64::MAX);
    assert_eq!(escalate(u64::MAX - 59), u64::MAX);
    assert_eq!(escalate(u64::MAX - 60), u64::MAX);
    assert_eq!(escalate(u64::MAX - 61), u64::MAX - 1);
}

#[test]
fn the_state_grows_step_by_step_and_goes_back_on_reset() {
    let mut state = BackoffState::new(Some(5));
    assert_eq!(state.delay, Some(5));
    state.escalate();
    assert_eq!(state.delay, Some(10));
    state.escalate();
    state.escalate();
    assert_eq!(state.delay, Some(30));
    state.reset(Some(5));
    assert_eq!(state, BackoffState { delay: Some(5) });
    state.reset(None);
    assert_eq!(state.delay, None);
}

#[test]
fn a_state_without_a_wait_has_nothing_to_grow() {
    let mut state = BackoffState::new(None);
    state.escalate();
    assert_eq!(state.delay, None);
}

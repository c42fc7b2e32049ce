use rustirc::config::ServerConfig;
use rustirc::control::{Command, ControlChannelSlot};
use rustirc::supervisor::{Outcome, Phase, Supervisor, SupervisorAction, SupervisorEvent};

fn config(reconnect_time: Option<u64>, reconnect_backoff: bool) -> ServerConfig {
    ServerConfig {
        host: b"irc.example.net".to_vec(),
        port: 6667,
        nick: b"bot".to_vec(),
        user: b"bot".to_vec(),
        real: b"A bot".to_vec(),
        autojoin: vec![b"#rust".to_vec()],
        reconnect_time,
        reconnect_backoff,
    }
}

/// Runs one attempt after the other with the given outcomes and returns the
/// actions that followed the end of each.
fn run(supervisor: &mut Supervisor, slot: &mut ControlChannelSlot, outcomes: &[Outcome]) -> Vec<SupervisorAction> {
    let mut actions = Vec::new();
    let mut action = supervisor.handle(SupervisorEvent::Start, slot);
    for outcome in outcomes {
        assert_eq!(action, SupervisorAction::Connect);
        action = supervisor.handle(SupervisorEvent::AttemptEnded(*outcome), slot);
        actions.push(action);
        if let SupervisorAction::Sleep { .. } = action {
            action = supervisor.handle(SupervisorEvent::SleepElapsed, slot);
        }
    }
    actions
}

#[test]
fn three_failures_in_a_row_wait_five_ten_twenty() {
    let mut slot = ControlChannelSlot::new();
    let mut supervisor = Supervisor::new(&config(Some(5), true));
    let actions = run(
        &mut supervisor,
        &mut slot,
        &[Outcome::OtherError, Outcome::OtherError, Outcome::OtherError],
    );
    assert_eq!(
        actions,
        vec![
            SupervisorAction::Sleep { secs: 5 },
            SupervisorAction::Sleep { secs: 10 },
            SupervisorAction::Sleep { secs: 20 },
        ]
    );
    assert_eq!(supervisor.delay(), Some(30));
}

#[test]
fn every_io_error_waits_the_configured_time() {
    let mut slot = ControlChannelSlot::new();
    let mut supervisor = Supervisor::new(&config(Some(5), true));
    let actions = run(
        &mut supervisor,
        &mut slot,
        &[Outcome::IoError, Outcome::IoError, Outcome::IoError],
    );
    assert_eq!(
        actions,
        vec![
            SupervisorAction::Sleep { secs: 5 },
            SupervisorAction::Sleep { secs: 5 },
            SupervisorAction::Sleep { secs: 5 },
        ]
    );
}

#[test]
fn io_error_resets_a_wait_that_had_grown() {
    let mut slot = ControlChannelSlot::new();
    let mut supervisor = Supervisor::new(&config(Some(5), true));
    let actions = run(
        &mut supervisor,
        &mut slot,
        &[
            Outcome::OtherError,
            Outcome::OtherError,
            Outcome::OtherError,
            Outcome::IoError,
            Outcome::OtherError,
        ],
    );
    assert_eq!(
        actions,
        vec![
            SupervisorAction::Sleep { secs: 5 },
            SupervisorAction::Sleep { secs: 10 },
            SupervisorAction::Sleep { secs: 20 },
            SupervisorAction::Sleep { secs: 5 },
            SupervisorAction::Sleep { secs: 10 },
        ]
    );
}

#[test]
fn other_errors_leave_the_wait_as_it_is() {
    let mut slot = ControlChannelSlot::new();
    let mut supervisor = Supervisor::new(&config(Some(30), true));
    let actions = run(&mut supervisor, &mut slot, &[Outcome::OtherError, Outcome::OtherError]);
    assert_eq!(
        actions,
        vec![SupervisorAction::Sleep { secs: 30 }, SupervisorAction::Sleep { secs: 60 }]
    );
    assert_eq!(supervisor.delay(), Some(120));
}

#[test]
fn without_backoff_the_wait_stays() {
    let mut slot = ControlChannelSlot::new();
    let mut supervisor = Supervisor::new(&config(Some(7), false));
    let actions = run(
        &mut supervisor,
        &mut slot,
        &[Outcome::OtherError, Outcome::IoError, Outcome::OtherError],
    );
    assert_eq!(
        actions,
        vec![
            SupervisorAction::Sleep { secs: 7 },
            SupervisorAction::Sleep { secs: 7 },
            SupervisorAction::Sleep { secs: 7 },
        ]
    );
    assert_eq!(supervisor.delay(), Some(7));
}

#[test]
fn without_a_reconnect_time_a_failure_ends_the_loop() {
    for outcome in [Outcome::IoError, Outcome::OtherError] {
        let mut slot = ControlChannelSlot::new();
        let mut supervisor = Supervisor::new(&config(None, true));
        assert_eq!(supervisor.handle(SupervisorEvent::Start, &mut slot), SupervisorAction::Connect);
        assert_eq!(
            supervisor.handle(SupervisorEvent::AttemptEnded(outcome), &mut slot),
            SupervisorAction::GiveUp
        );
        assert_eq!(supervisor.phase(), Phase::Stopped);
        assert!(!slot.is_live());
    }
}

#[test]
fn quit_ends_the_loop_with_success() {
    let mut slot = ControlChannelSlot::new();
    let mut supervisor = Supervisor::new(&config(Some(5), true));
    assert_eq!(supervisor.handle(SupervisorEvent::Start, &mut slot), SupervisorAction::Connect);
    assert_eq!(
        supervisor.handle(SupervisorEvent::AttemptEnded(Outcome::Quit), &mut slot),
        SupervisorAction::Exit
    );
    assert_eq!(supervisor.phase(), Phase::Stopped);
    assert_eq!(supervisor.delay(), Some(5));
    assert_eq!(supervisor.handle(SupervisorEvent::Start, &mut slot), SupervisorAction::Ignored);
    assert_eq!(supervisor.handle(SupervisorEvent::SleepElapsed, &mut slot), SupervisorAction::Ignored);
}

#[test]
fn the_slot_is_live_during_an_attempt_only() {
    let mut slot = ControlChannelSlot::new();
    let mut supervisor = Supervisor::new(&config(Some(5), true));
    assert_eq!(supervisor.phase(), Phase::Idle);
    assert!(!slot.is_live());
    assert_eq!(supervisor.handle(SupervisorEvent::Start, &mut slot), SupervisorAction::Connect);
    assert_eq!(supervisor.phase(), Phase::Running);
    assert!(slot.is_live());
    assert!(slot.try_send(Command::Quit));
    assert_eq!(
        supervisor.handle(SupervisorEvent::AttemptEnded(Outcome::IoError), &mut slot),
        SupervisorAction::Sleep { secs: 5 }
    );
    assert_eq!(supervisor.phase(), Phase::Waiting);
    assert!(!slot.is_live());
    assert_eq!(slot.try_recv(), None);
    assert_eq!(supervisor.handle(SupervisorEvent::SleepElapsed, &mut slot), SupervisorAction::Connect);
    assert!(slot.is_live());
    // The new channel is a fresh one: what was sent to the old one is gone.
    assert_eq!(slot.try_recv(), None);
}

#[test]
fn reports_that_do_not_fit_the_phase_change_nothing() {
    let mut slot = ControlChannelSlot::new();
    let mut supervisor = Supervisor::new(&config(Some(5), true));
    assert_eq!(
        supervisor.handle(SupervisorEvent::AttemptEnded(Outcome::IoError), &mut slot),
        SupervisorAction::Ignored
    );
    assert_eq!(supervisor.handle(SupervisorEvent::SleepElapsed, &mut slot), SupervisorAction::Ignored);
    assert_eq!(supervisor.phase(), Phase::Idle);
    assert_eq!(supervisor.delay(), Some(5));
    assert!(!slot.is_live());
    assert_eq!(supervisor.handle(SupervisorEvent::Start, &mut slot), SupervisorAction::Connect);
    assert!(slot.try_send(Command::Quit));
    assert_eq!(supervisor.handle(SupervisorEvent::Start, &mut slot), SupervisorAction::Ignored);
    assert_eq!(supervisor.handle(SupervisorEvent::SleepElapsed, &mut slot), SupervisorAction::Ignored);
    assert_eq!(supervisor.phase(), Phase::Running);
    assert_eq!(slot.try_recv(), Some(Command::Quit));
}

#[test]
fn a_wait_of_sixty_goes_on_to_a_hundred_and_twenty() {
    let mut slot = ControlChannelSlot::new();
    let mut supervisor = Supervisor::new(&config(Some(30), true));
    let actions = run(
        &mut supervisor,
        &mut slot,
        &[Outcome::OtherError, Outcome::OtherError, Outcome::OtherError, Outcome::OtherError],
    );
    assert_eq!(
        actions,
        vec![
            SupervisorAction::Sleep { secs: 30 },
            SupervisorAction::Sleep { secs: 60 },
            SupervisorAction::Sleep { secs: 120 },
            SupervisorAction::Sleep { secs: 150 },
        ]
    );
    assert_eq!(supervisor.delay(), Some(210));
}

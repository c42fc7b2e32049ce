//! The supervisor of the one connection: when to connect, how long to wait
//! after a failure, and when to stop.
//!
//! The supervisor decides and the caller acts. The caller hands it what
//! happened, performs the action that comes back, and reports again:
//! `Start`, then for each `Connect` the end of the attempt, and for each
//! `Sleep` that the wait is over, until `Exit` or `GiveUp`.

use vstd::prelude::*;
use crate::backoff::{BackoffState, escalated_capped};
use crate::config::ServerConfig;
use crate::control::{CommandView, ControlChannelSlot};

verus! {

/// How a connection attempt ended.
#[derive(Clone, Copy, Debug, PartialEq, Eq, Structural)]
pub enum Outcome {
    /// The client was told to quit and did.
    Quit,
    /// The transport failed.
    IoError,
    /// Anything else went wrong.
    OtherError,
}

/// Where the supervisor stands.
#[derive(Clone, Copy, Debug, PartialEq, Eq, Structural)]
pub enum Phase {
    /// No attempt was made yet.
    Idle,
    /// An attempt is under way.
    Running,
    /// The wait before the next attempt is under way.
    Waiting,
    /// The supervisor is done.
    Stopped,
}

/// What the caller reports.
#[derive(Clone, Copy, Debug, PartialEq, Eq, Structural)]
pub enum SupervisorEvent {
    Start,
    AttemptEnded(Outcome),
    SleepElapsed,
}

/// What the caller is to do next.
#[derive(Clone, Copy, Debug, PartialEq, Eq, Structural)]
pub enum SupervisorAction {
    /// Connect and run until the connection ends. The slot holds a fresh channel.
    Connect,
    /// Wait for `secs` seconds.
    Sleep { secs: u64 },
    /// Leave with success: the client has quit.
    Exit,
    /// Leave: the attempt failed and no new one is wanted.
    GiveUp,
    /// Nothing: the report did not fit the phase, and nothing has changed.
    Ignored,
}

/// The state of the reconnect loop.
pub struct Supervisor {
    initial: Option<u64>,
    backoff: bool,
    state: BackoffState,
    phase: Phase,
}

/// What a supervisor holds: its configuration, its wait and its phase.
pub ghost struct SupervisorView {
    /// The configured wait, `None` where no new attempt is wanted.
    pub initial: Option<u64>,
    /// Whether the wait grows.
    pub backoff: bool,
    /// The wait before the next attempt.
    pub delay: Option<u64>,
    pub phase: Phase,
}

impl View for Supervisor {
    type V = SupervisorView;

    closed spec fn view(&self) -> SupervisorView {
        SupervisorView {
            initial: self.initial,
            backoff: self.backoff,
            delay: self.state.delay,
            phase: self.phase,
        }
    }
}

/// The wait that applies after an attempt has ended with `outcome`: the
/// configured one after a transport failure, the current one otherwise.
pub open spec fn delay_after(state: SupervisorView, outcome: Outcome) -> Option<u64> {
    if outcome == Outcome::IoError {
        state.initial
    } else {
        state.delay
    }
}

/// The supervisor after the end of an attempt, and what the caller is to do.
pub open spec fn after_attempt(state: SupervisorView, outcome: Outcome) -> (
    SupervisorView,
    SupervisorAction,
) {
    if outcome == Outcome::Quit {
        (SupervisorView { phase: Phase::Stopped, ..state }, SupervisorAction::Exit)
    } else {
        match delay_after(state, outcome) {
            None => (
                SupervisorView { delay: None, phase: Phase::Stopped, ..state },
                SupervisorAction::GiveUp,
            ),
            Some(secs) => (
                SupervisorView {
                    delay: Some(
                        if state.backoff {
                            escalated_capped(secs)
                        } else {
                            secs
                        },
                    ),
                    phase: Phase::Waiting,
                    ..state
                },
                SupervisorAction::Sleep { secs },
            ),
        }
    }
}

/// The supervisor and the slot after `event`, and what the caller is to do.
///
/// An attempt begins with a fresh channel in the slot, so that commands can
/// be sent from its first moment; when it has ended, however it ended, the
/// slot is empty.
pub open spec fn step(
    state: SupervisorView,
    slot: Option<Seq<CommandView>>,
    event: SupervisorEvent,
) -> (SupervisorView, Option<Seq<CommandView>>, SupervisorAction) {
    match (state.phase, event) {
        (Phase::Idle, SupervisorEvent::Start) | (Phase::Waiting, SupervisorEvent::SleepElapsed) => (
            SupervisorView { phase: Phase::Running, ..state },
            Some(Seq::empty()),
            SupervisorAction::Connect,
        ),
        (Phase::Running, SupervisorEvent::AttemptEnded(outcome)) => {
            let (next, action) = after_attempt(state, outcome);
            (next, None, action)
        },
        _ => (state, slot, SupervisorAction::Ignored),
    }
}

impl Supervisor {
    /// A supervisor for `config`, before its first attempt.
    pub fn new(config: &ServerConfig) -> (supervisor: Supervisor)
        ensures
            supervisor@ == (SupervisorView {
                initial: config.reconnect_time,
                backoff: config.reconnect_backoff,
                delay: config.reconnect_time,
                phase: Phase::Idle,
            }),
            consistent(supervisor@),
    {
        Supervisor {
            initial: config.reconnect_time,
            backoff: config.reconnect_backoff,
            state: BackoffState::new(config.reconnect_time),
            phase: Phase::Idle,
        }
    }

    /// Where the supervisor stands.
    pub fn phase(&self) -> (phase: Phase)
        ensures
            phase == self@.phase,
    {
        self.phase
    }

    /// The wait before the next attempt.
    pub fn delay(&self) -> (delay: Option<u64>)
        ensures
            delay == self@.delay,
    {
        self.state.delay
    }

    /// Takes in what happened and says what to do next.
    pub fn handle(&mut self, event: SupervisorEvent, slot: &mut ControlChannelSlot) -> (action:
        SupervisorAction)
        ensures
            (final(self)@, final(slot)@, action) == step(old(self)@, old(slot)@, event),
    {
        match (self.phase, event) {
            (Phase::Idle, SupervisorEvent::Start) | (Phase::Waiting, SupervisorEvent::SleepElapsed) => {
                slot.install();
                self.phase = Phase::Running;
                SupervisorAction::Connect
            },
            (Phase::Running, SupervisorEvent::AttemptEnded(outcome)) => {
                slot.clear();
                self.attempt_ended(outcome)
            },
            _ => SupervisorAction::Ignored,
        }
    }

    /// The decision at the end of an attempt.
    fn attempt_ended(&mut self, outcome: Outcome) -> (action: SupervisorAction)
        ensures
            (final(self)@, action) == after_attempt(old(self)@, outcome),
    {
        match outcome {
            Outcome::Quit => {
                self.phase = Phase::Stopped;
                return SupervisorAction::Exit;
            },
            Outcome::IoError => {
                self.state.reset(self.initial);
            },
            Outcome::OtherError => {},
        }
        match self.state.delay {
            None => {
                self.phase = Phase::Stopped;
                SupervisorAction::GiveUp
            },
            Some(secs) => {
                if self.backoff {
                    self.state.escalate();
                }
                self.phase = Phase::Waiting;
                SupervisorAction::Sleep { secs }
            },
        }
    }
}

/// Whether the supervisor has a wait exactly where one was configured. This
/// holds of a new supervisor and stays true whatever is reported.
pub open spec fn consistent(state: SupervisorView) -> bool {
    state.initial is None <==> state.delay is None
}

/// A supervisor that has a wait exactly where one was configured keeps to
/// that, whatever is reported to it.
pub proof fn lemma_stays_consistent(
    state: SupervisorView,
    slot: Option<Seq<CommandView>>,
    event: SupervisorEvent,
)
    requires
        consistent(state),
    ensures
        consistent(step(state, slot, event).0),
{
}

/// The loop ends in two ways only: with `Exit` when the client has quit, and
/// with `GiveUp` when an attempt has failed and no wait was configured. Any
/// other end of an attempt is followed by a wait. Once the supervisor has
/// stopped, nothing moves it again.
pub proof fn lemma_loop_ends_on_quit_or_without_policy(
    state: SupervisorView,
    slot: Option<Seq<CommandView>>,
    event: SupervisorEvent,
)
    requires
        consistent(state),
    ensures
        state.phase == Phase::Running ==> match event {
            SupervisorEvent::AttemptEnded(outcome) => {
                let action = step(state, slot, event).2;
                &&& action == SupervisorAction::Exit <==> outcome == Outcome::Quit
                &&& action == SupervisorAction::GiveUp <==> outcome != Outcome::Quit && state.initial
                    is None
                &&& action is Sleep <==> outcome != Outcome::Quit && state.initial is Some
            },
            _ => true,
        },
        step(state, slot, event).0.phase == Phase::Stopped <==> state.phase == Phase::Stopped || step(
            state,
            slot,
            event,
        ).2 == SupervisorAction::Exit || step(state, slot, event).2 == SupervisorAction::GiveUp,
        state.phase == Phase::Stopped ==> step(state, slot, event) == (
            state,
            slot,
            SupervisorAction::Ignored,
        ),
{
}

/// After a transport failure the wait is the configured one, whatever it had
/// grown to; after any other failure it is the one that was current.
pub proof fn lemma_reset_on_io_error(state: SupervisorView, slot: Option<Seq<CommandView>>)
    requires
        state.phase == Phase::Running,
    ensures
        step(state, slot, SupervisorEvent::AttemptEnded(Outcome::IoError)).2 == match state.initial {
            Some(secs) => SupervisorAction::Sleep { secs },
            None => SupervisorAction::GiveUp,
        },
        step(state, slot, SupervisorEvent::AttemptEnded(Outcome::OtherError)).2 == match state.delay {
            Some(secs) => SupervisorAction::Sleep { secs },
            None => SupervisorAction::GiveUp,
        },
{
}

/// The slot is empty after every attempt, however it ended, and holds a
/// fresh channel whenever the caller is told to connect.
pub proof fn lemma_slot_follows_attempts(
    state: SupervisorView,
    slot: Option<Seq<CommandView>>,
    event: SupervisorEvent,
)
    ensures
        step(state, slot, event).2 == SupervisorAction::Connect ==> step(state, slot, event).1 == Some(
            Seq::<CommandView>::empty(),
        ),
        state.phase == Phase::Running && event is AttemptEnded ==> step(state, slot, event).1 is None,
        step(state, slot, event).2 == SupervisorAction::Ignored ==> step(state, slot, event).0 == state
            && step(state, slot, event).1 == slot,
{
}

} // verus!

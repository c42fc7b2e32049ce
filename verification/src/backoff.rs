//! The schedule by which the wait between attempts grows.

use vstd::prelude::*;

verus! {

/// The wait that follows a wait of `secs` seconds.
///
/// Sixty itself lies in none of the ranges and goes to a hundred and twenty,
/// as a hundred and fifty goes to two hundred and ten.
pub open spec fn escalated(secs: nat) -> nat {
    if secs <= 4 {
        5
    } else if secs <= 9 {
        10
    } else if secs <= 19 {
        20
    } else if secs <= 29 {
        30
    } else if secs <= 59 {
        60
    } else if 61 <= secs <= 149 {
        150
    } else if 151 <= secs <= 299 {
        300
    } else {
        secs + 60
    }
}

/// `escalated`, held to what a `u64` can carry.
pub open spec fn escalated_capped(secs: u64) -> u64 {
    if escalated(secs as nat) <= u64::MAX {
        escalated(secs as nat) as u64
    } else {
        u64::MAX
    }
}

/// The wait that follows a wait of `secs` seconds; it stays at the largest
/// `u64` once sixty more would pass it.
pub fn escalate(secs: u64) -> (next: u64)
    ensures
        next == escalated_capped(secs),
        secs <= u64::MAX - 60 ==> next == escalated(secs as nat),
{
    if secs <= 4 {
        5
    } else if secs <= 9 {
        10
    } else if secs <= 19 {
        20
    } else if secs <= 29 {
        30
    } else if secs <= 59 {
        60
    } else if 61 <= secs && secs <= 149 {
        150
    } else if 151 <= secs && secs <= 299 {
        300
    } else {
        secs.saturating_add(60)
    }
}

/// The wait before the next attempt, in seconds; `None` where no new
/// attempt is to be made at all.
#[derive(Clone, Copy, Debug, PartialEq, Eq, Structural)]
pub struct BackoffState {
    pub delay: Option<u64>,
}

impl BackoffState {
    /// The state at the start: the configured wait.
    pub fn new(initial: Option<u64>) -> (state: BackoffState)
        ensures
            state.delay == initial,
    {
        BackoffState { delay: initial }
    }

    /// Goes back to the configured wait.
    pub fn reset(&mut self, initial: Option<u64>)
        ensures
            final(self).delay == initial,
    {
        self.delay = initial;
    }

    /// Takes one step of the schedule. Without a wait there is nothing to grow.
    pub fn escalate(&mut self)
        ensures
            final(self).delay == match old(self).delay {
                Some(secs) => Some(escalated_capped(secs)),
                None => None,
            },
    {
        if let Some(secs) = self.delay {
            self.delay = Some(escalate(secs));
        }
    }
}

/// The schedule, range by range.
pub proof fn lemma_schedule(secs: nat)
    ensures
        0 <= secs <= 4 ==> escalated(secs) == 5,
        5 <= secs <= 9 ==> escalated(secs) == 10,
        10 <= secs <= 19 ==> escalated(secs) == 20,
        20 <= secs <= 29 ==> escalated(secs) == 30,
        30 <= secs <= 59 ==> escalated(secs) == 60,
        61 <= secs <= 149 ==> escalated(secs) == 150,
        151 <= secs <= 299 ==> escalated(secs) == 300,
        secs == 60 || secs == 150 || secs >= 300 ==> escalated(secs) == secs + 60,
{
}

/// Each step of the schedule waits longer than the one before.
pub proof fn lemma_schedule_grows(secs: nat)
    ensures
        escalated(secs) > secs,
{
}

} // verus!

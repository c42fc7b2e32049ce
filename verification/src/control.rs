//! Commands for the live connection, and the slot through which the console
//! and the interrupt handler reach it.
//!
//! The slot is the one piece of state that more than one activity touches.
//! The caller keeps it behind a lock; every function here returns at once, so
//! the lock is never held over a wait.

use vstd::prelude::*;

verus! {

/// One action on the live connection.
#[derive(Clone, Debug, PartialEq, Eq)]
pub enum Command {
    Quit,
    Join { channel: Vec<u8> },
    Privmsg { dst: Vec<u8>, text: Vec<u8> },
    Notice { dst: Vec<u8>, text: Vec<u8> },
}

/// What a command holds.
pub ghost enum CommandView {
    Quit,
    Join { channel: Seq<u8> },
    Privmsg { dst: Seq<u8>, text: Seq<u8> },
    Notice { dst: Seq<u8>, text: Seq<u8> },
}

impl View for Command {
    type V = CommandView;

    open spec fn view(&self) -> CommandView {
        match *self {
            Command::Quit => CommandView::Quit,
            Command::Join { channel } => CommandView::Join { channel: channel@ },
            Command::Privmsg { dst, text } => CommandView::Privmsg { dst: dst@, text: text@ },
            Command::Notice { dst, text } => CommandView::Notice { dst: dst@, text: text@ },
        }
    }
}

/// The commands behind a list of commands.
pub open spec fn commands_view(commands: Seq<Command>) -> Seq<CommandView> {
    Seq::new(commands.len(), |i: int| commands[i]@)
}

/// The channel to the live connection, if there is one.
///
/// Empty means that no connection can be commanded. The supervisor installs
/// a fresh channel when it begins an attempt and empties the slot when the
/// attempt has ended; whatever still waited in the channel goes with it.
pub struct ControlChannelSlot {
    channel: Option<Vec<Command>>,
}

impl View for ControlChannelSlot {
    type V = Option<Seq<CommandView>>;

    /// `None` for the empty slot, else the commands that wait, oldest first.
    closed spec fn view(&self) -> Option<Seq<CommandView>> {
        match self.channel {
            Some(waiting) => Some(commands_view(waiting@)),
            None => None,
        }
    }
}

/// The slot after one attempt to send `command` into it.
pub open spec fn after_send(slot: Option<Seq<CommandView>>, command: CommandView) -> Option<
    Seq<CommandView>,
> {
    match slot {
        Some(waiting) => Some(waiting.push(command)),
        None => None,
    }
}

impl ControlChannelSlot {
    /// The empty slot.
    pub fn new() -> (slot: ControlChannelSlot)
        ensures
            slot@ is None,
    {
        ControlChannelSlot { channel: None }
    }

    /// Puts a fresh channel into the slot, in place of what was there.
    pub fn install(&mut self)
        ensures
            final(self)@ == Some(Seq::<CommandView>::empty()),
    {
        self.channel = Some(Vec::new());
        assert(self@->Some_0 =~= Seq::<CommandView>::empty());
    }

    /// Empties the slot.
    pub fn clear(&mut self)
        ensures
            final(self)@ is None,
    {
        self.channel = None;
    }

    /// Whether a connection can be commanded.
    pub fn is_live(&self) -> (live: bool)
        ensures
            live == (self@ is Some),
    {
        self.channel.is_some()
    }

    /// Sends `command` to the live connection if there is one, and drops it
    /// otherwise. Returns whether it was sent. Never waits and never fails.
    pub fn try_send(&mut self, command: Command) -> (sent: bool)
        ensures
            sent == (old(self)@ is Some),
            final(self)@ == after_send(old(self)@, command@),
    {
        match &mut self.channel {
            Some(waiting) => {
                let ghost before = waiting@;
                waiting.push(command);
                assert(commands_view(waiting@) =~= commands_view(before).push(command@));
                true
            },
            None => false,
        }
    }

    /// Takes the oldest command that waits, for the connection to perform.
    /// Each command comes out once.
    pub fn try_recv(&mut self) -> (command: Option<Command>)
        ensures
            match old(self)@ {
                Some(waiting) if waiting.len() > 0 => {
                    &&& command matches Some(first)
                    &&& first@ == waiting[0]
                    &&& final(self)@ == Some(waiting.subrange(1, waiting.len() as int))
                },
                _ => command is None && final(self)@ == old(self)@,
            },
    {
        match &mut self.channel {
            Some(waiting) => {
                if waiting.len() > 0 {
                    let ghost before = waiting@;
                    let first = waiting.remove(0);
                    assert(commands_view(waiting@) =~= commands_view(before).subrange(
                        1,
                        before.len() as int,
                    ));
                    Some(first)
                } else {
                    None
                }
            },
            None => None,
        }
    }
}

/// What became of one interrupt.
#[derive(Clone, Copy, Debug, PartialEq, Eq, Structural)]
pub enum Interrupt {
    /// The quit request went to the live connection.
    QuitSent,
    /// The quit request was made and dropped, for want of a live connection.
    QuitDropped,
    /// The bridge had stopped listening; the interrupt is the system's to handle.
    NotListening,
}

/// Turns the first interrupt into a request to quit, and listens no longer.
pub struct SignalBridge {
    listening: bool,
}

/// The bridge, the slot and the report after one interrupt.
pub open spec fn after_interrupt(listening: bool, slot: Option<Seq<CommandView>>) -> (
    bool,
    Option<Seq<CommandView>>,
    Interrupt,
) {
    if !listening {
        (false, slot, Interrupt::NotListening)
    } else if slot is Some {
        (false, after_send(slot, CommandView::Quit), Interrupt::QuitSent)
    } else {
        (false, slot, Interrupt::QuitDropped)
    }
}

/// How many quit requests a bridge makes over a run of interrupts, where
/// `slots[i]` is the slot as the `i`-th interrupt finds it.
pub open spec fn quits_made(listening: bool, slots: Seq<Option<Seq<CommandView>>>) -> nat
    decreases slots.len(),
{
    if slots.len() == 0 {
        0
    } else {
        let step = after_interrupt(listening, slots[0]);
        let made: nat = if step.2 == Interrupt::NotListening {
            0
        } else {
            1
        };
        made + quits_made(step.0, slots.subrange(1, slots.len() as int))
    }
}

/// A bridge that has stopped listening makes no quit request, whatever comes.
pub proof fn lemma_deaf_bridge_is_silent(slots: Seq<Option<Seq<CommandView>>>)
    ensures
        quits_made(false, slots) == 0,
    decreases slots.len(),
{
    if slots.len() > 0 {
        lemma_deaf_bridge_is_silent(slots.subrange(1, slots.len() as int));
    }
}

/// Over its whole life a bridge makes one quit request, at the first
/// interrupt, however many interrupts follow and whatever the slot holds when
/// they come.
pub proof fn lemma_one_quit_per_lifetime(slots: Seq<Option<Seq<CommandView>>>)
    requires
        slots.len() > 0,
    ensures
        quits_made(true, slots) == 1,
{
    lemma_deaf_bridge_is_silent(slots.subrange(1, slots.len() as int));
}

impl View for SignalBridge {
    type V = bool;

    /// Whether the bridge still listens.
    closed spec fn view(&self) -> bool {
        self.listening
    }
}

impl SignalBridge {
    /// A bridge that listens.
    pub fn new() -> (bridge: SignalBridge)
        ensures
            bridge@,
    {
        SignalBridge { listening: true }
    }

    /// Whether the bridge still listens.
    pub fn is_listening(&self) -> (listening: bool)
        ensures
            listening == self@,
    {
        self.listening
    }

    /// Handles one interrupt. The first one sends a quit command into `slot`,
    /// or drops it where the slot is empty, and ends the listening. Any later
    /// one changes nothing.
    pub fn on_interrupt(&mut self, slot: &mut ControlChannelSlot) -> (report: Interrupt)
        ensures
            (final(self)@, final(slot)@, report) == after_interrupt(old(self)@, old(slot)@),
    {
        if !self.listening {
            return Interrupt::NotListening;
        }
        self.listening = false;
        if slot.try_send(Command::Quit) {
            Interrupt::QuitSent
        } else {
            Interrupt::QuitDropped
        }
    }
}

} // verus!

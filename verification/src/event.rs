//! Protocol events as the connection hands them over.

use vstd::prelude::*;

verus! {

/// The sender of a line, as taken from its prefix.
#[derive(Clone, Debug, PartialEq, Eq)]
pub struct User {
    pub raw: Vec<u8>,
    pub nick: Vec<u8>,
    pub user: Option<Vec<u8>>,
    pub host: Option<Vec<u8>>,
}

/// What a user holds, as byte strings.
pub ghost struct UserView {
    pub raw: Seq<u8>,
    pub nick: Seq<u8>,
    pub user: Option<Seq<u8>>,
    pub host: Option<Seq<u8>>,
}

/// The byte string behind an optional field, if there is one.
pub open spec fn opt_bytes(field: Option<Vec<u8>>) -> Option<Seq<u8>> {
    match field {
        Some(bytes) => Some(bytes@),
        None => None,
    }
}

impl View for User {
    type V = UserView;

    open spec fn view(&self) -> UserView {
        UserView {
            raw: self.raw@,
            nick: self.nick@,
            user: opt_bytes(self.user),
            host: opt_bytes(self.host),
        }
    }
}

impl User {
    /// A copy of this user.
    pub fn duplicate(&self) -> (copy: User)
        ensures
            copy@ == self@,
    {
        User {
            raw: self.raw.clone(),
            nick: self.nick.clone(),
            user: match &self.user {
                Some(bytes) => Some(bytes.clone()),
                None => None,
            },
            host: match &self.host {
                Some(bytes) => Some(bytes.clone()),
                None => None,
            },
        }
    }
}

/// What kind of message a line carries.
#[derive(Clone, Debug, PartialEq, Eq)]
pub enum CommandKind {
    /// A numeric reply.
    Code(u32),
    /// A named command, with its token as received.
    Named(Vec<u8>),
    /// A CTCP action sent to `dst`.
    Action { dst: Vec<u8> },
    /// A CTCP query `command` sent to `dst`.
    Ctcp { command: Vec<u8>, dst: Vec<u8> },
    /// A CTCP reply to `command` sent to `dst`.
    CtcpReply { command: Vec<u8>, dst: Vec<u8> },
}

/// What a command kind holds, as a number and byte strings.
pub ghost enum CommandKindView {
    Code(nat),
    Named(Seq<u8>),
    Action { dst: Seq<u8> },
    Ctcp { command: Seq<u8>, dst: Seq<u8> },
    CtcpReply { command: Seq<u8>, dst: Seq<u8> },
}

impl View for CommandKind {
    type V = CommandKindView;

    open spec fn view(&self) -> CommandKindView {
        match *self {
            CommandKind::Code(code) => CommandKindView::Code(code as nat),
            CommandKind::Named(token) => CommandKindView::Named(token@),
            CommandKind::Action { dst } => CommandKindView::Action { dst: dst@ },
            CommandKind::Ctcp { command, dst } => CommandKindView::Ctcp {
                command: command@,
                dst: dst@,
            },
            CommandKind::CtcpReply { command, dst } => CommandKindView::CtcpReply {
                command: command@,
                dst: dst@,
            },
        }
    }
}

/// One received line. The arguments are those of the remote peer, unchecked.
#[derive(Clone, Debug, PartialEq, Eq)]
pub struct Line {
    pub command: CommandKind,
    pub args: Vec<Vec<u8>>,
    pub prefix: Option<User>,
}

/// What a line holds: the command, the arguments in order and the sender.
pub ghost struct LineView {
    pub command: CommandKindView,
    pub args: Seq<Seq<u8>>,
    pub prefix: Option<UserView>,
}

/// The byte strings of a list of arguments.
pub open spec fn args_view(args: Seq<Vec<u8>>) -> Seq<Seq<u8>> {
    Seq::new(args.len(), |i: int| args[i]@)
}

impl View for Line {
    type V = LineView;

    open spec fn view(&self) -> LineView {
        LineView {
            command: self.command@,
            args: args_view(self.args@),
            prefix: match self.prefix {
                Some(user) => Some(user@),
                None => None,
            },
        }
    }
}

/// What the connection reports.
#[derive(Clone, Debug, PartialEq, Eq)]
pub enum Event {
    Connected,
    Disconnected,
    LineReceived(Line),
}

/// What an event holds.
pub ghost enum EventView {
    Connected,
    Disconnected,
    LineReceived(LineView),
}

impl View for Event {
    type V = EventView;

    open spec fn view(&self) -> EventView {
        match *self {
            Event::Connected => EventView::Connected,
            Event::Disconnected => EventView::Disconnected,
            Event::LineReceived(line) => EventView::LineReceived(line@),
        }
    }
}

} // verus!

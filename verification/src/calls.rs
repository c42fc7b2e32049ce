//! From protocol events to script calls.
//!
//! A handler is called with the name of the event, the sender of the line
//! (nil where the line had no prefix) and the arguments in order.

use vstd::prelude::*;
use vstd::string::*;
use crate::bytes::{ascii, ascii_bytes, decimal, decimal_bytes, digit, digit_byte};
use crate::event::{CommandKind, CommandKindView, Event, EventView};
use crate::value::{Value, ValueView, user_record, values_view};

verus! {

/// Sent once the connection stands.
pub const EVT_CONNECTED: &'static str = "-CONNECTED";

/// Sent when the connection has ended.
pub const EVT_DISCONNECTED: &'static str = "-DISCONNECTED";

/// Sent in place of `EVT_CONNECTED` after the plugins were loaded again.
pub const EVT_RELOADED: &'static str = "-RELOADED";

/// A CTCP action.
pub const EVT_ACTION: &'static str = "-ACTION";

/// A CTCP query.
pub const EVT_CTCP: &'static str = "-CTCP";

/// A CTCP reply.
pub const EVT_CTCPREPLY: &'static str = "-CTCPREPLY";

/// The name of a numeric reply: its code in decimal, with zeros in front up to three digits.
pub open spec fn code_name(code: nat) -> Seq<u8> {
    if code < 10 {
        seq![digit(0), digit(0)] + decimal(code)
    } else if code < 100 {
        seq![digit(0)] + decimal(code)
    } else {
        decimal(code)
    }
}

/// The name under which handlers register for `event`.
pub open spec fn event_name(event: EventView) -> Seq<u8> {
    match event {
        EventView::Connected => ascii(EVT_CONNECTED@),
        EventView::Disconnected => ascii(EVT_DISCONNECTED@),
        EventView::LineReceived(line) => match line.command {
            CommandKindView::Code(code) => code_name(code),
            CommandKindView::Named(token) => token,
            CommandKindView::Action { dst } => ascii(EVT_ACTION@),
            CommandKindView::Ctcp { command, dst } => ascii(EVT_CTCP@),
            CommandKindView::CtcpReply { command, dst } => ascii(EVT_CTCPREPLY@),
        },
    }
}

/// The sender that a handler is given: the table of the prefix, or nil.
pub open spec fn event_sender(event: EventView) -> ValueView {
    match event {
        EventView::LineReceived(line) => match line.prefix {
            Some(user) => user_record(user),
            None => ValueView::Nil,
        },
        _ => ValueView::Nil,
    }
}

/// The arguments that a handler is given, after the sender.
///
/// A numeric reply and a named command pass the arguments of the line as they
/// came. A CTCP action puts the destination in front of them, a CTCP query or
/// reply the CTCP command and the destination.
pub open spec fn event_args(event: EventView) -> Seq<Seq<u8>> {
    match event {
        EventView::LineReceived(line) => match line.command {
            CommandKindView::Code(code) => line.args,
            CommandKindView::Named(token) => line.args,
            CommandKindView::Action { dst } => seq![dst] + line.args,
            CommandKindView::Ctcp { command, dst } => seq![command, dst] + line.args,
            CommandKindView::CtcpReply { command, dst } => seq![command, dst] + line.args,
        },
        _ => Seq::empty(),
    }
}

/// Byte strings as script values.
pub open spec fn bytes_values(args: Seq<Seq<u8>>) -> Seq<ValueView> {
    Seq::new(args.len(), |i: int| ValueView::Bytes(args[i]))
}

/// One call of a handler, before a handler is chosen.
#[derive(Debug, PartialEq, Eq)]
pub struct Call {
    pub name: Vec<u8>,
    pub sender: Value,
    pub args: Vec<Value>,
}

/// What a call holds: the name of the event, the sender and the arguments.
pub ghost struct CallView {
    pub name: Seq<u8>,
    pub sender: ValueView,
    pub args: Seq<ValueView>,
}

impl View for Call {
    type V = CallView;

    open spec fn view(&self) -> CallView {
        CallView { name: self.name@, sender: self.sender@, args: values_view(self.args@) }
    }
}

/// The call that `event` becomes.
pub open spec fn call_of(event: EventView) -> CallView {
    CallView {
        name: event_name(event),
        sender: event_sender(event),
        args: bytes_values(event_args(event)),
    }
}

/// The call that tells handlers that the plugins were loaded again: no sender, no arguments.
pub open spec fn reloaded_call() -> CallView {
    CallView { name: ascii(EVT_RELOADED@), sender: ValueView::Nil, args: Seq::empty() }
}

/// The name of the numeric reply `code`.
pub fn numeric_name(code: u32) -> (name: Vec<u8>)
    ensures
        name@ == code_name(code as nat),
{
    let mut name: Vec<u8> = Vec::new();
    if code < 100 {
        name.push(digit_byte(0));
    }
    if code < 10 {
        name.push(digit_byte(0));
    }
    let ghost zeros = name@;
    let mut digits = decimal_bytes(code as u64);
    name.append(&mut digits);
    assert(name@ =~= zeros + decimal(code as nat));
    assert(name@ =~= code_name(code as nat));
    name
}

/// The name under which handlers register for `event`.
pub fn name_of(event: &Event) -> (name: Vec<u8>)
    ensures
        name@ == event_name(event@),
{
    proof {
        reveal_strlit("-CONNECTED");
        reveal_strlit("-DISCONNECTED");
        reveal_strlit("-ACTION");
        reveal_strlit("-CTCP");
        reveal_strlit("-CTCPREPLY");
    }
    match event {
        Event::Connected => ascii_bytes(EVT_CONNECTED),
        Event::Disconnected => ascii_bytes(EVT_DISCONNECTED),
        Event::LineReceived(line) => match &line.command {
            CommandKind::Code(code) => numeric_name(*code),
            CommandKind::Named(token) => token.clone(),
            CommandKind::Action { dst } => ascii_bytes(EVT_ACTION),
            CommandKind::Ctcp { command, dst } => ascii_bytes(EVT_CTCP),
            CommandKind::CtcpReply { command, dst } => ascii_bytes(EVT_CTCPREPLY),
        },
    }
}

/// The sender that a handler is given for `event`.
pub fn sender_of(event: &Event) -> (sender: Value)
    ensures
        sender@ == event_sender(event@),
{
    match event {
        Event::LineReceived(line) => match &line.prefix {
            Some(user) => Value::from_user(user),
            None => Value::Nil,
        },
        _ => Value::Nil,
    }
}

/// The arguments that a handler is given for `event`, after the sender.
pub fn args_of(event: &Event) -> (args: Vec<Value>)
    ensures
        values_view(args@) == bytes_values(event_args(event@)),
{
    let mut args: Vec<Value> = Vec::new();
    match event {
        Event::LineReceived(line) => {
            match &line.command {
                CommandKind::Action { dst } => {
                    args.push(Value::Bytes(dst.clone()));
                },
                CommandKind::Ctcp { command, dst } => {
                    args.push(Value::Bytes(command.clone()));
                    args.push(Value::Bytes(dst.clone()));
                },
                CommandKind::CtcpReply { command, dst } => {
                    args.push(Value::Bytes(command.clone()));
                    args.push(Value::Bytes(dst.clone()));
                },
                _ => {},
            }
            let ghost lead = args@.len();
            let ghost wanted = event_args(event@);
            assert(wanted.len() == lead + line.args@.len());
            assert(forall|k: int| 0 <= k < lead ==> args@[k]@ == ValueView::Bytes(wanted[k]));
            let mut i: usize = 0;
            while i < line.args.len()
                invariant
                    i <= line.args.len(),
                    args@.len() == lead + i,
                    wanted.len() == lead + line.args@.len(),
                    forall|k: int| 0 <= k < line.args@.len() ==> wanted[lead + k] == line.args@[k]@,
                    forall|k: int| 0 <= k < args@.len() ==> args@[k]@ == ValueView::Bytes(wanted[k]),
                decreases line.args.len() - i,
            {
                let arg = Value::Bytes(line.args[i].clone());
                assert(arg@ == ValueView::Bytes(line.args@[i as int]@));
                args.push(arg);
                i += 1;
            }
            assert(values_view(args@) =~= bytes_values(wanted));
        },
        _ => {
            assert(values_view(args@) =~= bytes_values(event_args(event@)));
        },
    }
    args
}

/// The call that `event` becomes.
pub fn call_for(event: &Event) -> (call: Call)
    ensures
        call@ == call_of(event@),
{
    Call { name: name_of(event), sender: sender_of(event), args: args_of(event) }
}

/// The call that tells handlers that the plugins were loaded again.
pub fn reloaded() -> (call: Call)
    ensures
        call@ == reloaded_call(),
{
    proof {
        reveal_strlit("-RELOADED");
    }
    let call = Call { name: ascii_bytes(EVT_RELOADED), sender: Value::Nil, args: Vec::new() };
    assert(values_view(call.args@) =~= Seq::<ValueView>::empty());
    call
}

} // verus!

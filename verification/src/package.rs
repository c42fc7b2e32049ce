//! What the client shows to scripts: a set of functions and the names of
//! the events that have no protocol name of their own.
//!
//! The functions to send raw lines, to change the nickname, to join and to
//! quit are held back for later; a script finds no such entry.

use vstd::prelude::*;
use vstd::string::*;
use crate::bytes::{ascii, ascii_bytes};
use crate::context::{
    ContextView, ScriptContext, ScriptError, add_handler_spec, host_spec, me_spec, notice_spec,
    privmsg_spec,
};
use crate::control::{Command, CommandView};
use crate::calls::{
    EVT_ACTION, EVT_CONNECTED, EVT_CTCP, EVT_CTCPREPLY, EVT_DISCONNECTED, EVT_RELOADED,
};
use crate::value::{Value, ValueView, values_view};

verus! {

/// A function that scripts may call.
#[derive(Clone, Copy, Debug, PartialEq, Eq, Structural)]
pub enum Capability {
    AddHandler,
    Host,
    Me,
    Privmsg,
    Notice,
}

/// The name under which scripts find a function.
pub open spec fn capability_name(capability: Capability) -> Seq<u8> {
    match capability {
        Capability::AddHandler => ascii("addHandler"@),
        Capability::Host => ascii("host"@),
        Capability::Me => ascii("me"@),
        Capability::Privmsg => ascii("privmsg"@),
        Capability::Notice => ascii("notice"@),
    }
}

/// The functions that scripts may call, in the order in which they are listed.
pub open spec fn capabilities() -> Seq<Capability> {
    seq![
        Capability::AddHandler,
        Capability::Host,
        Capability::Me,
        Capability::Privmsg,
        Capability::Notice,
    ]
}

/// A named byte string that scripts can read.
#[derive(Clone, Debug, PartialEq, Eq)]
pub struct Constant {
    pub name: Vec<u8>,
    pub value: Vec<u8>,
}

/// What a constant holds: its name and its value.
pub ghost struct ConstantView {
    pub name: Seq<u8>,
    pub value: Seq<u8>,
}

impl View for Constant {
    type V = ConstantView;

    open spec fn view(&self) -> ConstantView {
        ConstantView { name: self.name@, value: self.value@ }
    }
}

/// The constants behind a list of constants.
pub open spec fn constants_view(constants: Seq<Constant>) -> Seq<ConstantView> {
    Seq::new(constants.len(), |i: int| constants[i]@)
}

/// The event names that scripts can read, each under its constant.
pub open spec fn constants() -> Seq<ConstantView> {
    seq![
        ConstantView { name: ascii("CONNECTED"@), value: ascii(EVT_CONNECTED@) },
        ConstantView { name: ascii("DISCONNECTED"@), value: ascii(EVT_DISCONNECTED@) },
        ConstantView { name: ascii("RELOADED"@), value: ascii(EVT_RELOADED@) },
        ConstantView { name: ascii("ACTION"@), value: ascii(EVT_ACTION@) },
        ConstantView { name: ascii("CTCP"@), value: ascii(EVT_CTCP@) },
        ConstantView { name: ascii("CTCPREPLY"@), value: ascii(EVT_CTCPREPLY@) },
    ]
}

/// What a function hands back to the script runtime.
#[derive(Debug, PartialEq, Eq)]
pub enum Reply {
    /// Nothing is returned to the script.
    Nothing,
    /// This value is returned to the script.
    Value(Value),
    /// Nothing is returned to the script; this command is for the live connection.
    Perform(Command),
}

/// What a reply holds.
pub ghost enum ReplyView {
    Nothing,
    Value(ValueView),
    Perform(CommandView),
}

impl View for Reply {
    type V = ReplyView;

    open spec fn view(&self) -> ReplyView {
        match *self {
            Reply::Nothing => ReplyView::Nothing,
            Reply::Value(value) => ReplyView::Value(value@),
            Reply::Perform(command) => ReplyView::Perform(command@),
        }
    }
}

/// The reply behind a returned reply.
pub open spec fn reply_result(result: Result<Reply, ScriptError>) -> Result<ReplyView, ScriptError> {
    match result {
        Ok(reply) => Ok(reply@),
        Err(error) => Err(error),
    }
}

/// What a call of `capability` with `args` does to the context, and what it
/// hands back.
pub open spec fn call_spec(ctx: ContextView, capability: Capability, args: Seq<ValueView>) -> (
    ContextView,
    Result<ReplyView, ScriptError>,
) {
    match capability {
        Capability::AddHandler => match add_handler_spec(ctx, args).1 {
            Ok(_) => (add_handler_spec(ctx, args).0, Ok(ReplyView::Nothing)),
            Err(error) => (ctx, Err(error)),
        },
        Capability::Host => match host_spec(ctx) {
            Ok(value) => (ctx, Ok(ReplyView::Value(value))),
            Err(error) => (ctx, Err(error)),
        },
        Capability::Me => match me_spec(ctx) {
            Ok(value) => (ctx, Ok(ReplyView::Value(value))),
            Err(error) => (ctx, Err(error)),
        },
        Capability::Privmsg => match privmsg_spec(ctx, args) {
            Ok(command) => (ctx, Ok(ReplyView::Perform(command))),
            Err(error) => (ctx, Err(error)),
        },
        Capability::Notice => match notice_spec(ctx, args) {
            Ok(command) => (ctx, Ok(ReplyView::Perform(command))),
            Err(error) => (ctx, Err(error)),
        },
    }
}

impl Capability {
    /// The name under which scripts find this function.
    pub fn name(&self) -> (name: Vec<u8>)
        ensures
            name@ == capability_name(*self),
    {
        proof {
            reveal_strlit("addHandler");
            reveal_strlit("host");
            reveal_strlit("me");
            reveal_strlit("privmsg");
            reveal_strlit("notice");
        }
        match self {
            Capability::AddHandler => ascii_bytes("addHandler"),
            Capability::Host => ascii_bytes("host"),
            Capability::Me => ascii_bytes("me"),
            Capability::Privmsg => ascii_bytes("privmsg"),
            Capability::Notice => ascii_bytes("notice"),
        }
    }

    /// The functions that scripts may call.
    pub fn all() -> (all: Vec<Capability>)
        ensures
            all@ == capabilities(),
    {
        let mut all: Vec<Capability> = Vec::new();
        all.push(Capability::AddHandler);
        all.push(Capability::Host);
        all.push(Capability::Me);
        all.push(Capability::Privmsg);
        all.push(Capability::Notice);
        assert(all@ =~= capabilities());
        all
    }
}

/// A constant named `name` for the event name `value`.
fn constant(name: &str, value: &str) -> (constant: Constant)
    requires
        is_ascii(name),
        is_ascii(value),
    ensures
        constant@ == (ConstantView { name: ascii(name@), value: ascii(value@) }),
{
    Constant { name: ascii_bytes(name), value: ascii_bytes(value) }
}

/// The event names that scripts can read, each under its constant.
pub fn package_constants() -> (list: Vec<Constant>)
    ensures
        constants_view(list@) == constants(),
{
    proof {
        reveal_strlit("CONNECTED");
        reveal_strlit("DISCONNECTED");
        reveal_strlit("RELOADED");
        reveal_strlit("ACTION");
        reveal_strlit("CTCP");
        reveal_strlit("CTCPREPLY");
        reveal_strlit("-CONNECTED");
        reveal_strlit("-DISCONNECTED");
        reveal_strlit("-RELOADED");
        reveal_strlit("-ACTION");
        reveal_strlit("-CTCP");
        reveal_strlit("-CTCPREPLY");
    }
    let mut list: Vec<Constant> = Vec::new();
    list.push(constant("CONNECTED", EVT_CONNECTED));
    list.push(constant("DISCONNECTED", EVT_DISCONNECTED));
    list.push(constant("RELOADED", EVT_RELOADED));
    list.push(constant("ACTION", EVT_ACTION));
    list.push(constant("CTCP", EVT_CTCP));
    list.push(constant("CTCPREPLY", EVT_CTCPREPLY));
    assert(constants_view(list@) =~= constants());
    list
}

impl ScriptContext {
    /// Serves one call of a script: `capability` with the arguments `args`.
    pub fn call(&mut self, capability: Capability, args: &Vec<Value>) -> (reply: Result<
        Reply,
        ScriptError,
    >)
        ensures
            (final(self)@, reply_result(reply)) == call_spec(old(self)@, capability, values_view(args@)),
    {
        match capability {
            Capability::AddHandler => {
                self.add_handler(args)?;
                Ok(Reply::Nothing)
            },
            Capability::Host => Ok(Reply::Value(self.host()?)),
            Capability::Me => Ok(Reply::Value(self.me()?)),
            Capability::Privmsg => Ok(Reply::Perform(self.privmsg(args)?)),
            Capability::Notice => Ok(Reply::Perform(self.notice(args)?)),
        }
    }
}

} // verus!

//! The state of one script context, and what a script may ask of the client.
//!
//! A context holds the handlers that its plugin has registered and, while a
//! connection runs, a handle to it. The functions that need the connection
//! fail with `NoActiveConnection` while no handle is bound. A function that
//! is called with the wrong kind of argument fails with `BadArgument`, which
//! names the first argument that does not fit; arguments beyond those that a
//! function takes are ignored. The arguments are checked before the
//! connection is asked for.

use vstd::prelude::*;
use vstd::pervasive::unreached;
use vstd::string::*;
use crate::bytes::{ascii, ascii_bytes, decimal, decimal_bytes};
use crate::control::{Command, CommandView};
use crate::dispatch::{Dispatch, DispatchView};
use crate::event::{Event, User, UserView};
use crate::registry::HandlerRegistry;
use crate::calls::{CallView, call_of, reloaded_call};
use crate::value::{
    HandlerRef, Value, ValueKind, ValueView, kind_name, kind_of, user_record, values_view,
};

verus! {

/// What a script is told when a call cannot be served.
#[derive(Clone, Copy, Debug, PartialEq, Eq, Structural)]
pub enum ScriptError {
    /// The call needs the connection, and none is bound.
    NoActiveConnection,
    /// The argument at `position`, counted from one, is not of the kind `expected`.
    BadArgument { position: usize, expected: ValueKind, found: ValueKind },
}

/// The text by which a script is told of `error`.
pub open spec fn error_message(error: ScriptError) -> Seq<u8> {
    match error {
        ScriptError::NoActiveConnection => ascii("no active connection"@),
        ScriptError::BadArgument { position, expected, found } => ascii("bad argument #"@) + decimal(
            position as nat,
        ) + ascii(" ("@) + kind_name(expected) + ascii(" expected, got "@) + kind_name(found) + ascii(
            ")"@,
        ),
    }
}

impl ScriptError {
    /// The text by which a script is told of this error.
    pub fn message(&self) -> (text: Vec<u8>)
        ensures
            text@ == error_message(*self),
    {
        proof {
            reveal_strlit("no active connection");
            reveal_strlit("bad argument #");
            reveal_strlit(" (");
            reveal_strlit(" expected, got ");
            reveal_strlit(")");
        }
        match self {
            ScriptError::NoActiveConnection => ascii_bytes("no active connection"),
            ScriptError::BadArgument { position, expected, found } => {
                let mut text = ascii_bytes("bad argument #");
                let mut number = decimal_bytes(*position as u64);
                text.append(&mut number);
                let mut open = ascii_bytes(" (");
                text.append(&mut open);
                let mut wanted = expected.name();
                text.append(&mut wanted);
                let mut middle = ascii_bytes(" expected, got ");
                text.append(&mut middle);
                let mut got = found.name();
                text.append(&mut got);
                let mut close = ascii_bytes(")");
                text.append(&mut close);
                text
            },
        }
    }
}

/// What a script can learn of the live connection.
#[derive(Clone, Debug, PartialEq, Eq)]
pub struct ConnHandle {
    pub host: Vec<u8>,
    pub me: User,
}

/// What a handle holds: the host and the client as the server knows it.
pub ghost struct ConnView {
    pub host: Seq<u8>,
    pub me: UserView,
}

impl View for ConnHandle {
    type V = ConnView;

    open spec fn view(&self) -> ConnView {
        ConnView { host: self.host@, me: self.me@ }
    }
}

impl ConnHandle {
    /// A copy of this handle.
    pub fn duplicate(&self) -> (copy: ConnHandle)
        ensures
            copy@ == self@,
    {
        ConnHandle { host: self.host.clone(), me: self.me.duplicate() }
    }
}

/// The state of one plugin's scripts.
pub struct ScriptContext {
    registry: HandlerRegistry,
    conn: Option<ConnHandle>,
}

/// What a context holds: its handlers and its connection.
pub ghost struct ContextView {
    /// The registered handlers by event name, oldest first.
    pub handlers: Map<Seq<u8>, Seq<HandlerRef>>,
    /// The bound connection, if any.
    pub conn: Option<ConnView>,
}

impl ContextView {
    /// The handlers registered for `name`, oldest first; none where the name is unknown.
    pub open spec fn handlers_for(self, name: Seq<u8>) -> Seq<HandlerRef> {
        if self.handlers.contains_key(name) {
            self.handlers[name]
        } else {
            Seq::empty()
        }
    }

    /// The context with `callback` registered behind the handlers of `name`.
    pub open spec fn with_handler(self, name: Seq<u8>, callback: HandlerRef) -> ContextView {
        ContextView {
            handlers: self.handlers.insert(name, self.handlers_for(name).push(callback)),
            ..self
        }
    }
}

impl View for ScriptContext {
    type V = ContextView;

    closed spec fn view(&self) -> ContextView {
        ContextView {
            handlers: self.registry@,
            conn: match self.conn {
                Some(conn) => Some(conn@),
                None => None,
            },
        }
    }
}

/// The kind of the argument at `position`, counted from one.
pub open spec fn kind_at(args: Seq<ValueView>, position: int) -> ValueKind {
    if 1 <= position <= args.len() {
        kind_of(args[position - 1])
    } else {
        ValueKind::NoValue
    }
}

/// The complaint about the argument at `position`, where it is not of the kind `expected`.
pub open spec fn complaint(args: Seq<ValueView>, position: int, expected: ValueKind) -> Option<
    ScriptError,
> {
    if kind_at(args, position) == expected {
        None
    } else {
        Some(
            ScriptError::BadArgument {
                position: position as usize,
                expected,
                found: kind_at(args, position),
            },
        )
    }
}

/// The first complaint about the arguments of a function that takes these two kinds.
pub open spec fn first_complaint(args: Seq<ValueView>, first: ValueKind, second: ValueKind) -> Option<
    ScriptError,
> {
    if complaint(args, 1, first) is Some {
        complaint(args, 1, first)
    } else {
        complaint(args, 2, second)
    }
}

/// What `addHandler` does with `args`: the context afterwards, and the
/// complaint where the arguments are not an event name and a callback.
pub open spec fn add_handler_spec(ctx: ContextView, args: Seq<ValueView>) -> (
    ContextView,
    Result<(), ScriptError>,
) {
    match first_complaint(args, ValueKind::Bytes, ValueKind::Function) {
        Some(error) => (ctx, Err(error)),
        None => (ctx.with_handler(args[0]->Bytes_0, args[1]->Function_0), Ok(())),
    }
}

/// What `host` returns.
pub open spec fn host_spec(ctx: ContextView) -> Result<ValueView, ScriptError> {
    match ctx.conn {
        Some(bound) => Ok(ValueView::Bytes(bound.host)),
        None => Err(ScriptError::NoActiveConnection),
    }
}

/// What `me` returns.
pub open spec fn me_spec(ctx: ContextView) -> Result<ValueView, ScriptError> {
    match ctx.conn {
        Some(bound) => Ok(user_record(bound.me)),
        None => Err(ScriptError::NoActiveConnection),
    }
}

/// The destination and the text of a message that a script sends with `args`.
pub open spec fn message_spec(ctx: ContextView, args: Seq<ValueView>) -> Result<
    (Seq<u8>, Seq<u8>),
    ScriptError,
> {
    match first_complaint(args, ValueKind::Bytes, ValueKind::Bytes) {
        Some(error) => Err(error),
        None => if ctx.conn is None {
            Err(ScriptError::NoActiveConnection)
        } else {
            Ok((args[0]->Bytes_0, args[1]->Bytes_0))
        },
    }
}

/// What `privmsg` returns.
pub open spec fn privmsg_spec(ctx: ContextView, args: Seq<ValueView>) -> Result<
    CommandView,
    ScriptError,
> {
    match message_spec(ctx, args) {
        Ok((dst, text)) => Ok(CommandView::Privmsg { dst, text }),
        Err(error) => Err(error),
    }
}

/// What `notice` returns.
pub open spec fn notice_spec(ctx: ContextView, args: Seq<ValueView>) -> Result<
    CommandView,
    ScriptError,
> {
    match message_spec(ctx, args) {
        Ok((dst, text)) => Ok(CommandView::Notice { dst, text }),
        Err(error) => Err(error),
    }
}

/// The value behind a returned value.
pub open spec fn value_result(result: Result<Value, ScriptError>) -> Result<ValueView, ScriptError> {
    match result {
        Ok(value) => Ok(value@),
        Err(error) => Err(error),
    }
}

/// The command behind a returned command.
pub open spec fn command_result(result: Result<Command, ScriptError>) -> Result<
    CommandView,
    ScriptError,
> {
    match result {
        Ok(command) => Ok(command@),
        Err(error) => Err(error),
    }
}

/// The dispatch that `ctx` begins for `call`: none where it has no handler
/// under the name of the call.
pub open spec fn dispatch_in(ctx: ContextView, call: CallView) -> Option<
    DispatchView,
> {
    if ctx.handlers_for(call.name).len() == 0 {
        None
    } else {
        Some(
            DispatchView {
                call,
                handlers: ctx.handlers_for(call.name),
                position: 0,
                failures: Seq::empty(),
            },
        )
    }
}

/// The dispatch behind a dispatch that may not have begun.
pub open spec fn begun_view(dispatch: Option<Dispatch>) -> Option<DispatchView> {
    match dispatch {
        Some(begun) => Some(begun@),
        None => None,
    }
}

/// Handlers stand in the order of their registration, and a registration
/// under one name leaves the handlers of every other name as they were.
pub proof fn lemma_registration_order(
    ctx: ContextView,
    name: Seq<u8>,
    first: HandlerRef,
    second: HandlerRef,
    other: Seq<u8>,
)
    ensures
        ctx.with_handler(name, first).with_handler(name, second).handlers_for(name)
            == ctx.handlers_for(name).push(first).push(second),
        other != name ==> ctx.with_handler(name, first).handlers_for(other) == ctx.handlers_for(
            other,
        ),
{
}

/// A context that has no handler for a call begins no dispatch for it: no
/// sender and no argument is made. One that has handlers dispatches to all
/// of them, in the order of their registration.
pub proof fn lemma_dispatch_needs_handlers(ctx: ContextView, call: CallView)
    ensures
        ctx.handlers_for(call.name).len() == 0 <==> dispatch_in(ctx, call) is None,
        dispatch_in(ctx, call) matches Some(begun) ==> begun.call == call && begun.handlers
            == ctx.handlers_for(call.name) && begun.plan().len() == begun.handlers.len(),
{
}

/// Binds the live connection to `ctx`, for the time that the connection runs.
pub fn activate_conn(ctx: &mut ScriptContext, conn: ConnHandle)
    ensures
        final(ctx)@ == (ContextView { conn: Some(conn@), ..old(ctx)@ }),
{
    ctx.conn = Some(conn);
}

/// Takes the connection from `ctx`: it has ended, or the plugins are about to
/// be loaded again.
pub fn deactivate_conn(ctx: &mut ScriptContext)
    ensures
        final(ctx)@ == (ContextView { conn: None, ..old(ctx)@ }),
{
    ctx.conn = None;
}

/// Checks that the argument at `position` is of the kind `expected`.
fn check_kind(args: &Vec<Value>, position: usize, expected: ValueKind) -> (checked: Result<
    (),
    ScriptError,
>)
    requires
        position >= 1,
    ensures
        match complaint(values_view(args@), position as int, expected) {
            Some(error) => checked == Err::<(), ScriptError>(error),
            None => checked is Ok,
        },
{
    let found = if position <= args.len() {
        args[position - 1].kind()
    } else {
        ValueKind::NoValue
    };
    if found == expected {
        Ok(())
    } else {
        Err(ScriptError::BadArgument { position, expected, found })
    }
}

/// The byte string at `position`, which was checked to be one.
fn bytes_at(args: &Vec<Value>, position: usize) -> (bytes: Vec<u8>)
    requires
        kind_at(values_view(args@), position as int) == ValueKind::Bytes,
    ensures
        values_view(args@)[position - 1] == ValueView::Bytes(bytes@),
{
    match &args[position - 1] {
        Value::Bytes(bytes) => bytes.clone(),
        _ => unreached(),
    }
}

/// The callback at `position`, which was checked to be one.
fn callback_at(args: &Vec<Value>, position: usize) -> (callback: HandlerRef)
    requires
        kind_at(values_view(args@), position as int) == ValueKind::Function,
    ensures
        values_view(args@)[position - 1] == ValueView::Function(callback),
{
    match &args[position - 1] {
        Value::Function(callback) => *callback,
        _ => unreached(),
    }
}

impl ScriptContext {
    /// A context without handlers and without a connection.
    pub fn new() -> (ctx: ScriptContext)
        ensures
            ctx@ == (ContextView { handlers: Map::empty(), conn: None }),
    {
        ScriptContext { registry: HandlerRegistry::new(), conn: None }
    }

    /// The bound connection, or the error that a script is given without one.
    pub fn getconn(&self) -> (conn: Result<&ConnHandle, ScriptError>)
        ensures
            match self@.conn {
                Some(bound) => conn matches Ok(handle) && handle@ == bound,
                None => conn == Err::<&ConnHandle, ScriptError>(ScriptError::NoActiveConnection),
            },
    {
        match &self.conn {
            Some(handle) => Ok(handle),
            None => Err(ScriptError::NoActiveConnection),
        }
    }

    /// `addHandler(eventName, callback)`: registers `callback` behind the
    /// handlers that `eventName` already has.
    pub fn add_handler(&mut self, args: &Vec<Value>) -> (added: Result<(), ScriptError>)
        ensures
            (final(self)@, added) == add_handler_spec(old(self)@, values_view(args@)),
    {
        check_kind(args, 1, ValueKind::Bytes)?;
        check_kind(args, 2, ValueKind::Function)?;
        self.registry.add_handler(bytes_at(args, 1), callback_at(args, 2));
        Ok(())
    }

    /// `host()`: the host of the live connection.
    pub fn host(&self) -> (host: Result<Value, ScriptError>)
        ensures
            value_result(host) == host_spec(self@),
    {
        let handle = self.getconn()?;
        Ok(Value::Bytes(handle.host.clone()))
    }

    /// `me()`: the client itself as the server knows it, as a user table.
    pub fn me(&self) -> (me: Result<Value, ScriptError>)
        ensures
            value_result(me) == me_spec(self@),
    {
        let handle = self.getconn()?;
        Ok(Value::from_user(&handle.me))
    }

    /// `privmsg(dst, text)`: the command that sends `text` to `dst`.
    pub fn privmsg(&self, args: &Vec<Value>) -> (command: Result<Command, ScriptError>)
        ensures
            command_result(command) == privmsg_spec(self@, values_view(args@)),
    {
        check_kind(args, 1, ValueKind::Bytes)?;
        check_kind(args, 2, ValueKind::Bytes)?;
        self.getconn()?;
        Ok(Command::Privmsg { dst: bytes_at(args, 1), text: bytes_at(args, 2) })
    }

    /// `notice(dst, text)`: the command that sends `text` to `dst` as a notice.
    pub fn notice(&self, args: &Vec<Value>) -> (command: Result<Command, ScriptError>)
        ensures
            command_result(command) == notice_spec(self@, values_view(args@)),
    {
        check_kind(args, 1, ValueKind::Bytes)?;
        check_kind(args, 2, ValueKind::Bytes)?;
        self.getconn()?;
        Ok(Command::Notice { dst: bytes_at(args, 1), text: bytes_at(args, 2) })
    }

    /// Begins the delivery of `event` to the handlers of this context.
    /// Nothing is built, and `None` comes back, where the context has no
    /// handler for the event.
    pub fn dispatch_event(&self, event: &Event) -> (dispatch: Option<Dispatch>)
        ensures
            begun_view(dispatch) == dispatch_in(self@, call_of(event@)),
    {
        Dispatch::begin(&self.registry, event)
    }

    /// Begins the delivery of the call that follows a reload of the plugins.
    pub fn dispatch_reloaded(&self) -> (dispatch: Option<Dispatch>)
        ensures
            begun_view(dispatch) == dispatch_in(self@, reloaded_call()),
    {
        Dispatch::begin_reloaded(&self.registry)
    }

    /// Makes the context ready for its plugin to be loaded again: the
    /// connection is taken from it and its handlers are forgotten.
    pub fn begin_reload(&mut self)
        ensures
            final(self)@ == (ContextView { handlers: Map::empty(), conn: None }),
    {
        self.conn = None;
        self.registry.clear();
    }
}

} // verus!

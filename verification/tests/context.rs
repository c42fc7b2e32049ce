use rustirc::context::{activate_conn, deactivate_conn, ConnHandle, ScriptContext, ScriptError};
use rustirc::control::Command;
use rustirc::dispatch::Invocation;
use rustirc::event::{CommandKind, Event, Line, User};
use rustirc::value::{Field, HandlerRef, Value, ValueKind};

fn me() -> User {
    User {
        raw: b"bot!bot@client.example".to_vec(),
        nick: b"bot".to_vec(),
        user: Some(b"bot".to_vec()),
        host: Some(b"client.example".to_vec()),
    }
}

fn handle() -> ConnHandle {
    ConnHandle { host: b"irc.example.net".to_vec(), me: me() }
}

fn bytes(text: &[u8]) -> Value {
    Value::Bytes(text.to_vec())
}

fn function(id: u64) -> Value {
    Value::Function(HandlerRef { id })
}

fn bad(position: usize, expected: ValueKind, found: ValueKind) -> ScriptError {
    ScriptError::BadArgument { position, expected, found }
}

fn named(token: &[u8]) -> Event {
    Event::LineReceived(Line { command: CommandKind::Named(token.to_vec()), args: vec![], prefix: None })
}

#[test]
fn a_new_context_has_no_connection() {
    let ctx = ScriptContext::new();
    assert_eq!(ctx.getconn(), Err(ScriptError::NoActiveConnection));
    assert_eq!(ctx.host(), Err(ScriptError::NoActiveConnection));
    assert_eq!(ctx.me(), Err(ScriptError::NoActiveConnection));
}

#[test]
fn the_connection_is_there_from_activation_to_deactivation() {
    let mut ctx = ScriptContext::new();
    activate_conn(&mut ctx, handle());
    assert_eq!(ctx.getconn(), Ok(&handle()));
    assert_eq!(ctx.host(), Ok(bytes(b"irc.example.net")));
    deactivate_conn(&mut ctx);
    assert_eq!(ctx.getconn(), Err(ScriptError::NoActiveConnection));
    assert_eq!(ctx.host(), Err(ScriptError::NoActiveConnection));
    assert_eq!(ctx.me(), Err(ScriptError::NoActiveConnection));
    assert_eq!(
        ctx.privmsg(&vec![bytes(b"#rust"), bytes(b"hello")]),
        Err(ScriptError::NoActiveConnection)
    );
    assert_eq!(
        ctx.notice(&vec![bytes(b"#rust"), bytes(b"hello")]),
        Err(ScriptError::NoActiveConnection)
    );
    // Taking it away once more changes nothing.
    deactivate_conn(&mut ctx);
    assert_eq!(ctx.getconn(), Err(ScriptError::NoActiveConnection));
}

#[test]
fn a_later_activation_takes_the_place_of_an_earlier_one() {
    let mut ctx = ScriptContext::new();
    activate_conn(&mut ctx, handle());
    let other = ConnHandle { host: b"other.example.net".to_vec(), me: me() };
    activate_conn(&mut ctx, other);
    assert_eq!(ctx.host(), Ok(bytes(b"other.example.net")));
}

#[test]
fn me_is_a_user_table() {
    let mut ctx = ScriptContext::new();
    activate_conn(&mut ctx, handle());
    assert_eq!(
        ctx.me(),
        Ok(Value::Table(vec![
            Field { key: b"raw".to_vec(), value: bytes(b"bot!bot@client.example") },
            Field { key: b"nick".to_vec(), value: bytes(b"bot") },
            Field { key: b"user".to_vec(), value: bytes(b"bot") },
            Field { key: b"host".to_vec(), value: bytes(b"client.example") },
        ]))
    );
}

#[test]
fn privmsg_and_notice_give_the_command_for_the_connection() {
    let mut ctx = ScriptContext::new();
    activate_conn(&mut ctx, handle());
    assert_eq!(
        ctx.privmsg(&vec![bytes(b"#rust"), bytes(b"hello there")]),
        Ok(Command::Privmsg { dst: b"#rust".to_vec(), text: b"hello there".to_vec() })
    );
    assert_eq!(
        ctx.notice(&vec![bytes(b"nick"), bytes(b"")]),
        Ok(Command::Notice { dst: b"nick".to_vec(), text: b"".to_vec() })
    );
    // What follows the second argument is not looked at.
    assert_eq!(
        ctx.privmsg(&vec![bytes(b"#rust"), bytes(b"hello"), Value::Nil, function(1)]),
        Ok(Command::Privmsg { dst: b"#rust".to_vec(), text: b"hello".to_vec() })
    );
}

#[test]
fn a_message_needs_two_byte_strings() {
    let mut ctx = ScriptContext::new();
    activate_conn(&mut ctx, handle());
    assert_eq!(ctx.privmsg(&vec![]), Err(bad(1, ValueKind::Bytes, ValueKind::NoValue)));
    assert_eq!(ctx.privmsg(&vec![bytes(b"#rust")]), Err(bad(2, ValueKind::Bytes, ValueKind::NoValue)));
    assert_eq!(
        ctx.privmsg(&vec![Value::Nil, bytes(b"hello")]),
        Err(bad(1, ValueKind::Bytes, ValueKind::Nil))
    );
    assert_eq!(
        ctx.privmsg(&vec![bytes(b"#rust"), Value::Table(vec![])]),
        Err(bad(2, ValueKind::Bytes, ValueKind::Table))
    );
    assert_eq!(
        ctx.notice(&vec![function(1), Value::Boolean(true)]),
        Err(bad(1, ValueKind::Bytes, ValueKind::Function))
    );
    assert_eq!(
        ctx.notice(&vec![bytes(b"nick"), Value::Boolean(true)]),
        Err(bad(2, ValueKind::Bytes, ValueKind::Boolean))
    );
    assert_eq!(
        ctx.notice(&vec![bytes(b"nick"), Value::Opaque]),
        Err(bad(2, ValueKind::Bytes, ValueKind::Opaque))
    );
}

#[test]
fn the_arguments_are_checked_before_the_connection_is_asked_for() {
    let ctx = ScriptContext::new();
    assert_eq!(ctx.privmsg(&vec![Value::Nil]), Err(bad(1, ValueKind::Bytes, ValueKind::Nil)));
    assert_eq!(
        ctx.notice(&vec![bytes(b"nick")]),
        Err(bad(2, ValueKind::Bytes, ValueKind::NoValue))
    );
}

#[test]
fn add_handler_registers_in_order_and_needs_no_connection() {
    let mut ctx = ScriptContext::new();
    assert_eq!(ctx.add_handler(&vec![bytes(b"PRIVMSG"), function(1)]), Ok(()));
    assert_eq!(ctx.add_handler(&vec![bytes(b"PRIVMSG"), function(2)]), Ok(()));
    assert_eq!(ctx.add_handler(&vec![bytes(b"JOIN"), function(3), bytes(b"ignored")]), Ok(()));
    let mut dispatch = ctx.dispatch_event(&named(b"PRIVMSG")).expect("two handlers are registered");
    assert_eq!(dispatch.remaining(), 2);
    assert_eq!(
        dispatch.next_invocation(),
        Some(Invocation {
            handler: HandlerRef { id: 1 },
            name: b"PRIVMSG".to_vec(),
            sender: Value::Nil,
            args: vec![],
        })
    );
    assert_eq!(dispatch.next_invocation().map(|inv| inv.handler), Some(HandlerRef { id: 2 }));
    assert_eq!(dispatch.next_invocation(), None);
    let mut join = ctx.dispatch_event(&named(b"JOIN")).expect("a handler is registered");
    assert_eq!(join.next_invocation().map(|inv| inv.handler), Some(HandlerRef { id: 3 }));
    assert!(ctx.dispatch_event(&named(b"PART")).is_none());
}

#[test]
fn add_handler_needs_a_name_and_a_callback() {
    let mut ctx = ScriptContext::new();
    assert_eq!(ctx.add_handler(&vec![]), Err(bad(1, ValueKind::Bytes, ValueKind::NoValue)));
    assert_eq!(
        ctx.add_handler(&vec![function(1), function(2)]),
        Err(bad(1, ValueKind::Bytes, ValueKind::Function))
    );
    assert_eq!(
        ctx.add_handler(&vec![bytes(b"PRIVMSG")]),
        Err(bad(2, ValueKind::Function, ValueKind::NoValue))
    );
    assert_eq!(
        ctx.add_handler(&vec![bytes(b"PRIVMSG"), bytes(b"print")]),
        Err(bad(2, ValueKind::Function, ValueKind::Bytes))
    );
    assert_eq!(
        ctx.add_handler(&vec![bytes(b"PRIVMSG"), Value::Nil]),
        Err(bad(2, ValueKind::Function, ValueKind::Nil))
    );
    // Nothing was registered on the way.
    assert!(ctx.dispatch_event(&named(b"PRIVMSG")).is_none());
}

#[test]
fn handlers_outlast_the_connection() {
    let mut ctx = ScriptContext::new();
    activate_conn(&mut ctx, handle());
    assert_eq!(ctx.add_handler(&vec![bytes(b"-CONNECTED"), function(1)]), Ok(()));
    deactivate_conn(&mut ctx);
    assert!(ctx.dispatch_event(&Event::Connected).is_some());
    activate_conn(&mut ctx, handle());
    assert_eq!(ctx.add_handler(&vec![bytes(b"-CONNECTED"), function(2)]), Ok(()));
    let dispatch = ctx.dispatch_event(&Event::Connected).expect("two handlers are registered");
    assert_eq!(dispatch.remaining(), 2);
}

#[test]
fn a_reload_begins_without_handlers_and_without_connection() {
    let mut ctx = ScriptContext::new();
    activate_conn(&mut ctx, handle());
    assert_eq!(ctx.add_handler(&vec![bytes(b"-RELOADED"), function(1)]), Ok(()));
    assert_eq!(ctx.add_handler(&vec![bytes(b"PRIVMSG"), function(2)]), Ok(()));
    ctx.begin_reload();
    assert_eq!(ctx.getconn(), Err(ScriptError::NoActiveConnection));
    assert!(ctx.dispatch_reloaded().is_none());
    assert!(ctx.dispatch_event(&named(b"PRIVMSG")).is_none());
    // The plugin registers anew, and is told of the reload.
    assert_eq!(ctx.add_handler(&vec![bytes(b"-RELOADED"), function(5)]), Ok(()));
    activate_conn(&mut ctx, handle());
    let mut dispatch = ctx.dispatch_reloaded().expect("a handler is registered");
    assert_eq!(
        dispatch.next_invocation(),
        Some(Invocation {
            handler: HandlerRef { id: 5 },
            name: b"-RELOADED".to_vec(),
            sender: Value::Nil,
            args: vec![],
        })
    );
    assert_eq!(dispatch.next_invocation(), None);
}

#[test]
fn a_handle_is_copied_field_by_field() {
    let copy = handle().duplicate();
    assert_eq!(copy, handle());
    assert_eq!(me().duplicate(), me());
}

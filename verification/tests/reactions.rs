use rustirc::config::ServerConfig;
use rustirc::context::{ConnHandle, ScriptContext, ScriptError};
use rustirc::control::Command;
use rustirc::reactions::{handle_event, react, RPL_WELCOME};
use rustirc::event::{CommandKind, Event, Line, User};
use rustirc::plugins::PluginManager;
use rustirc::value::{HandlerRef, Value};

fn config(autojoin: &[&[u8]]) -> ServerConfig {
    ServerConfig {
        host: b"irc.example.net".to_vec(),
        port: 6667,
        nick: b"bot".to_vec(),
        user: b"bot".to_vec(),
        real: b"A bot".to_vec(),
        autojoin: autojoin.iter().map(|name| name.to_vec()).collect(),
        reconnect_time: Some(5),
        reconnect_backoff: true,
    }
}

fn numeric(code: u32) -> Event {
    Event::LineReceived(Line { command: CommandKind::Code(code), args: vec![b"bot".to_vec()], prefix: None })
}

fn named(token: &[u8]) -> Event {
    Event::LineReceived(Line { command: CommandKind::Named(token.to_vec()), args: vec![], prefix: None })
}

fn context_with(registrations: &[(&[u8], u64)]) -> ScriptContext {
    let mut ctx = ScriptContext::new();
    for (name, id) in registrations {
        let args = vec![Value::Bytes(name.to_vec()), Value::Function(HandlerRef { id: *id })];
        assert_eq!(ctx.add_handler(&args), Ok(()));
    }
    ctx
}

fn handle() -> ConnHandle {
    ConnHandle {
        host: b"irc.example.net".to_vec(),
        me: User { raw: b"bot".to_vec(), nick: b"bot".to_vec(), user: None, host: None },
    }
}

#[test]
fn the_welcome_is_answered_with_the_joins_in_order() {
    assert_eq!(RPL_WELCOME, 1);
    let channels = [b"#rust".to_vec(), b"#verus".to_vec(), b"#rust".to_vec()];
    assert_eq!(
        react(&numeric(1), &channels.to_vec()),
        vec![
            Command::Join { channel: b"#rust".to_vec() },
            Command::Join { channel: b"#verus".to_vec() },
            Command::Join { channel: b"#rust".to_vec() },
        ]
    );
    assert_eq!(react(&numeric(1), &vec![]), vec![]);
}

#[test]
fn nothing_else_is_answered_by_the_client_itself() {
    let channels = vec![b"#rust".to_vec()];
    for event in [
        Event::Connected,
        Event::Disconnected,
        numeric(0),
        numeric(2),
        numeric(376),
        named(b"001"),
        named(b"PRIVMSG"),
        Event::LineReceived(Line {
            command: CommandKind::Action { dst: b"#rust".to_vec() },
            args: vec![b"waves".to_vec()],
            prefix: None,
        }),
    ] {
        assert_eq!(react(&event, &channels), vec![]);
    }
}

#[test]
fn every_plugin_is_given_the_event_on_its_own() {
    let mut plugins = PluginManager::new();
    assert_eq!(plugins.load(context_with(&[(b"001", 1), (b"001", 2)])), 0);
    assert_eq!(plugins.load(context_with(&[(b"PRIVMSG", 3)])), 1);
    assert_eq!(plugins.load(context_with(&[(b"001", 4)])), 2);
    assert_eq!(plugins.len(), 3);
    let mut handling = handle_event(&numeric(1), &config(&[b"#rust"]), &plugins);
    assert_eq!(handling.commands, vec![Command::Join { channel: b"#rust".to_vec() }]);
    assert_eq!(handling.dispatches.len(), 3);
    assert!(handling.dispatches[1].is_none());
    let first = handling.dispatches[0].as_mut().expect("the first plugin has handlers");
    assert_eq!(first.next_invocation().map(|inv| inv.handler), Some(HandlerRef { id: 1 }));
    // The first plugin fails; the third is served all the same.
    first.handler_failed(b"boom".to_vec());
    let third = handling.dispatches[2].as_mut().expect("the third plugin has a handler");
    assert_eq!(third.remaining(), 1);
    let invocation = third.next_invocation().expect("the handler of the third plugin");
    assert_eq!(invocation.handler, HandlerRef { id: 4 });
    assert_eq!(invocation.name, b"001".to_vec());
    assert_eq!(invocation.args, vec![Value::Bytes(b"bot".to_vec())]);
    assert!(third.failures().is_empty());
    let first = handling.dispatches[0].as_mut().expect("the first plugin has handlers");
    assert_eq!(first.next_invocation().map(|inv| inv.handler), Some(HandlerRef { id: 2 }));
}

#[test]
fn an_event_without_handlers_is_dispatched_nowhere() {
    let mut plugins = PluginManager::new();
    plugins.load(context_with(&[(b"PRIVMSG", 1)]));
    plugins.load(ScriptContext::new());
    let handling = handle_event(&named(b"JOIN"), &config(&[b"#rust"]), &plugins);
    assert_eq!(handling.commands, vec![]);
    assert_eq!(handling.dispatches.len(), 2);
    assert!(handling.dispatches.iter().all(|dispatch| dispatch.is_none()));
    let none = handle_event(&named(b"JOIN"), &config(&[]), &PluginManager::new());
    assert!(none.commands.is_empty());
    assert!(none.dispatches.is_empty());
}

#[test]
fn the_connection_is_bound_to_every_plugin_and_taken_from_every_plugin() {
    let mut plugins = PluginManager::new();
    plugins.load(context_with(&[(b"PRIVMSG", 1)]));
    plugins.load(ScriptContext::new());
    assert!(plugins.context(2).is_none());
    for place in 0..2 {
        let ctx = plugins.context(place).expect("a loaded plugin");
        assert_eq!(ctx.getconn(), Err(ScriptError::NoActiveConnection));
    }
    plugins.activate(&handle());
    for place in 0..2 {
        let ctx = plugins.context(place).expect("a loaded plugin");
        assert_eq!(ctx.getconn(), Ok(&handle()));
    }
    plugins.deactivate();
    for place in 0..2 {
        let ctx = plugins.context(place).expect("a loaded plugin");
        assert_eq!(ctx.getconn(), Err(ScriptError::NoActiveConnection));
    }
    // The handlers are still there.
    let dispatches = plugins.dispatch_irc_event(&named(b"PRIVMSG"));
    assert!(dispatches[0].is_some());
    assert!(dispatches[1].is_none());
}

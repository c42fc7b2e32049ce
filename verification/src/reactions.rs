//! What the client does with each event of the connection: first its own
//! reactions, then the delivery to the plugins.

use vstd::prelude::*;
use crate::config::ServerConfig;
use crate::control::{Command, CommandView, commands_view};
use crate::dispatch::Dispatch;
use crate::event::{CommandKind, CommandKindView, Event, EventView, args_view};
use crate::context::{begun_view, dispatch_in};
use crate::plugins::PluginManager;
use crate::calls::call_of;

verus! {

/// The numeric reply by which a server accepts the client.
pub const RPL_WELCOME: u32 = 1;

/// Whether `event` is the reply by which the server accepts the client.
pub open spec fn is_welcome(event: EventView) -> bool {
    event matches EventView::LineReceived(line) && line.command == CommandKindView::Code(
        RPL_WELCOME as nat,
    )
}

/// The commands with which the client itself answers `event`: once the
/// server has accepted it, one join for each channel of the list, in the
/// order of the list; nothing otherwise.
pub open spec fn builtin_reactions(event: EventView, autojoin: Seq<Seq<u8>>) -> Seq<CommandView> {
    if is_welcome(event) {
        Seq::new(autojoin.len(), |i: int| CommandView::Join { channel: autojoin[i] })
    } else {
        Seq::empty()
    }
}

/// The commands with which the client itself answers `event`.
pub fn react(event: &Event, autojoin: &Vec<Vec<u8>>) -> (commands: Vec<Command>)
    ensures
        commands_view(commands@) == builtin_reactions(event@, args_view(autojoin@)),
{
    let mut commands: Vec<Command> = Vec::new();
    let welcome = match event {
        Event::LineReceived(line) => match &line.command {
            CommandKind::Code(code) => *code == RPL_WELCOME,
            _ => false,
        },
        _ => false,
    };
    if welcome {
        let mut i: usize = 0;
        while i < autojoin.len()
            invariant
                i <= autojoin.len(),
                commands@.len() == i,
                forall|k: int|
                    0 <= k < i ==> (#[trigger] commands@[k])@ == (CommandView::Join {
                        channel: autojoin@[k]@,
                    }),
            decreases autojoin.len() - i,
        {
            commands.push(Command::Join { channel: autojoin[i].clone() });
            i += 1;
        }
    }
    assert(commands_view(commands@) =~= builtin_reactions(event@, args_view(autojoin@)));
    commands
}

/// What is to be done about one event.
pub struct Handling {
    /// The client's own commands for the connection, to be performed first and in order.
    pub commands: Vec<Command>,
    /// For each plugin the delivery of the event to its handlers, if it has any.
    pub dispatches: Vec<Option<Dispatch>>,
}

/// Decides what is to be done about `event`: the client's own reactions
/// first, then the unchanged event for every plugin.
pub fn handle_event(event: &Event, config: &ServerConfig, plugins: &PluginManager) -> (handling:
    Handling)
    ensures
        commands_view(handling.commands@) == builtin_reactions(event@, args_view(config.autojoin@)),
        handling.dispatches@.len() == plugins@.len(),
        forall|i: int|
            0 <= i < plugins@.len() ==> begun_view(#[trigger] handling.dispatches@[i]) == dispatch_in(
                plugins@[i],
                call_of(event@),
            ),
{
    let commands = react(event, &config.autojoin);
    let dispatches = plugins.dispatch_irc_event(event);
    Handling { commands, dispatches }
}

} // verus!

//! What the client is told about its server.

use vstd::prelude::*;

verus! {

/// The one server of the client. It does not change while the client runs.
#[derive(Clone, Debug, PartialEq, Eq)]
pub struct ServerConfig {
    pub host: Vec<u8>,
    pub port: u16,
    pub nick: Vec<u8>,
    pub user: Vec<u8>,
    pub real: Vec<u8>,
    /// The channels to join once the server has accepted the client, in order.
    pub autojoin: Vec<Vec<u8>>,
    /// Seconds to wait before a new attempt; `None` for no new attempt at all.
    pub reconnect_time: Option<u64>,
    /// Whether the wait grows from one failed attempt to the next.
    pub reconnect_backoff: bool,
}

} // verus!

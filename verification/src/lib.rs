//! Connection supervision and script event dispatch for a single-server IRC client.
//!
//! The crate holds the decisions of the client: the reconnect schedule, the
//! control channel shared by the console and the interrupt handler, the
//! calls that protocol events become for the scripts of plugins, the handler
//! registry, the lifecycle of the connection handle that scripts may use,
//! and the reading and writing of protocol lines. Sockets, threads and the
//! script runtime stay with the caller, which performs the actions that
//! these functions return.

pub mod backoff;
pub mod bytes;
pub mod calls;
pub mod config;
pub mod context;
pub mod control;
pub mod dispatch;
pub mod event;
pub mod package;
pub mod plugins;
pub mod reactions;
pub mod registry;
pub mod supervisor;
pub mod value;
pub mod wire;

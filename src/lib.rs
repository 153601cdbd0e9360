//! A bridge layer that drives game simulations through one uniform set of
//! operations: the remote-console packet codec, length-prefixed framing,
//! first-in first-out reply correlation, reconnect-with-backoff decisions, the
//! agent registry and the tool dispatch rules, each with its contract.

pub mod agent;
pub mod console;
pub mod demux;
pub mod error;
pub mod filepoll;
pub mod frame;
pub mod mcp;
pub mod observe;
pub mod protocol;
pub mod rcon;
pub mod reconnect;
pub mod registry;
pub mod types;

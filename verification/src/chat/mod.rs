//! Chat and presence between launcher instances over the mesh: the wire
//! messages, the length-prefixed framing, the in-memory chat state
//! (history, peers, own presence) and how each received frame updates it.
//! Sockets, tasks and the JSON encoding are the host application's.

pub mod types;
pub mod protocol;
pub mod state;
pub mod session;
pub mod commands;

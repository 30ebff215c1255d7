//! Global directory client: the social layer (who is online, friends,
//! friend requests, direct messages, global chat) served by a web
//! worker. This module holds the client configuration rules, identity
//! generation and the request paths; HTTP and JSON are the host
//! application's.

pub mod types;
pub mod config;
pub mod client;

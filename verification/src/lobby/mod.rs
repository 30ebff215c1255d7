//! In-app game lobby: one host, its members and the game everyone agreed
//! to play. Rooms are advertised and joined over the chat channel; when
//! the host starts, every member launches its copy as a netplay client
//! pointing at the host.

pub mod types;
pub mod state;
pub mod handlers;
pub mod commands;
pub mod launch;

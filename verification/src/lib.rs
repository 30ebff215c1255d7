//! Verified core of the Abyss Singularity game launcher: library
//! scanning and platform detection, emulator installer data and config
//! seeding, controller auto-configuration, the chat/lobby protocol state
//! machines, the mesh transport's wire codecs and the directory client's
//! configuration rules.

pub mod text;
pub mod digest;
pub mod library;
pub mod installer;
pub mod mesh;
pub mod controller;
pub mod chat;
pub mod lobby;
pub mod directory;
pub mod diagnostics;

//! The game library: platforms, scanning rules and metadata helpers.

pub mod platform;
pub mod tables;
pub mod scanner;
pub mod igdb;
pub mod config;

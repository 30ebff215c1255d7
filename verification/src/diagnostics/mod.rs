//! One-button diagnose-and-repair: the per-step results and how each
//! step's observations map to a status and a message for the user. The
//! probes themselves (process, file and network checks) are the host
//! application's.

pub mod types;
pub mod checks;

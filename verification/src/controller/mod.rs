//! Gamepad support: recognising the controller family from the id the
//! browser's Gamepad API reports, and generating RetroArch joypad
//! autoconfig files for it.

pub mod types;
pub mod retroarch;

//! Emulator installer: the bundled manifest list, install state and
//! progress types, per-emulator controller config seeding, streaming-app
//! detection and BIOS identification. Downloads, extraction and file
//! copies are performed by the host application around these rules.

pub mod types;
pub mod manifests;
pub mod ini;
pub mod controller_setup;
pub mod streaming;
pub mod streaming_install;
pub mod bios;
pub mod download;
pub mod assign;
pub mod emulators;

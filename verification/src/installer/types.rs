//! Installer data types.

use vstd::prelude::*;

use crate::library::platform::Platform;

verus! {

/// Archive format the download will arrive in.
#[derive(Debug, Clone, Copy, PartialEq, Eq, Structural)]
pub enum ArchiveFormat {
    Zip,
    SevenZ,
}

/// Static description of an emulator we know how to install.
#[derive(Debug, Clone)]
pub struct EmulatorManifest {
    /// Matches the emulator id of the launch configuration so an install
    /// can populate it.
    pub id: String,
    pub name: String,
    pub homepage: String,
    pub license: String,
    pub url: String,
    pub archive_format: ArchiveFormat,
    /// Relative path to the launchable .exe inside the extracted dir.
    pub exe_relpath: String,
    pub platforms: Vec<Platform>,
    pub approx_size_mb: u32,
    /// Whether the emulator's window can be reparented into the launcher.
    pub embeddable: bool,
}

/// The plain-value model of a manifest.
#[verifier::ext_equal]
pub struct ManifestView {
    pub id: Seq<char>,
    pub name: Seq<char>,
    pub homepage: Seq<char>,
    pub license: Seq<char>,
    pub url: Seq<char>,
    pub archive_format: ArchiveFormat,
    pub exe_relpath: Seq<char>,
    pub platforms: Seq<Platform>,
    pub approx_size_mb: u32,
    pub embeddable: bool,
}

impl View for EmulatorManifest {
    type V = ManifestView;

    open spec fn view(&self) -> ManifestView {
        ManifestView {
            id: self.id@,
            name: self.name@,
            homepage: self.homepage@,
            license: self.license@,
            url: self.url@,
            archive_format: self.archive_format,
            exe_relpath: self.exe_relpath@,
            platforms: self.platforms@,
            approx_size_mb: self.approx_size_mb,
            embeddable: self.embeddable,
        }
    }
}

/// What the installer status query returns for each known manifest.
#[derive(Debug, Clone)]
pub struct EmulatorInstallState {
    pub manifest: EmulatorManifest,
    pub installed: bool,
    /// Path to the installed exe if `installed`.
    pub exe: Option<String>,
}

impl EmulatorInstallState {
    /// The state of a manifest whose launchable exe was (or was not) found.
    pub fn new(manifest: EmulatorManifest, exe: Option<String>) -> (r: Self)
        ensures
            r.manifest == manifest,
            r.exe == exe,
            r.installed == exe is Some,
    {
        let installed = exe.is_some();
        EmulatorInstallState { manifest, installed, exe }
    }
}

/// Result of one successful install.
#[derive(Debug, Clone)]
pub struct InstallReport {
    pub id: String,
    pub exe: String,
    pub elapsed_ms: u64,
}

/// Progress events emitted while a download / extract is running.
#[derive(Debug, Clone)]
pub enum InstallProgress {
    Start { id: String },
    Download { id: String, bytes_done: u64, bytes_total: Option<u64> },
    Extract { id: String },
    Finalize { id: String, exe: String },
    Error { id: String, message: String },
}

/// Event name the progress events are emitted under.
pub const INSTALL_PROGRESS_EVENT: &'static str = "abyss://installer/progress";

/// Outcome of installing every manifest that was not yet on disk.
#[derive(Debug, Clone)]
pub struct InstallAllReport {
    pub installed: Vec<String>,
    pub already_present: Vec<String>,
    pub failed: Vec<(String, String)>,
}

} // verus!

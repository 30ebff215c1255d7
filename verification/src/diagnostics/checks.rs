//! What each diagnostic step reports, given what its probes observed.

use vstd::prelude::*;

use crate::diagnostics::types::{plain_row, CheckResult, CheckStatus};
use crate::installer::streaming::StreamingInstallReport;
use crate::library::platform::{extension_of, lower_extension};
use crate::text::{
    strs,
    chars_of, copy_string, decimal, ends_with, ends_with_str, extend_chars, extend_str, opt_chars,
    owned, push_decimal, string_of,
};

verus! {

/// Parts joined by a separator (`[..].join(sep)`).
pub open spec fn joined(parts: Seq<Seq<char>>, sep: Seq<char>) -> Seq<char>
    decreases parts.len(),
{
    if parts.len() == 0 {
        Seq::empty()
    } else if parts.len() == 1 {
        parts[0]
    } else {
        joined(parts.drop_last(), sep) + sep + parts.last()
    }
}

/// Join strings with `, `.
pub fn join_comma(parts: &Vec<String>) -> (r: Vec<char>)
    ensures
        r@ == joined(strs(parts@), ", "@),
{
    let mut out: Vec<char> = Vec::new();
    let mut i: usize = 0;
    while i < parts.len()
        invariant
            i <= parts@.len(),
            out@ == joined(strs(parts@).take(i as int), ", "@),
        decreases parts.len() - i,
    {
        let ghost prev = strs(parts@).take(i as int);
        assert(strs(parts@).take(i + 1).drop_last() =~= prev);
        assert(strs(parts@).take(i + 1).last() == parts@[i as int]@);
        if i > 0 {
            extend_str(&mut out, ", ");
        }
        extend_str(&mut out, parts[i].as_str());
        proof {
            if i == 0 {
                assert(out@ =~= joined(strs(parts@).take(1), ", "@));
            } else {
                assert(out@ =~= joined(prev, ", "@) + ", "@ + parts@[i as int]@);
            }
        }
        i += 1;
    }
    assert(strs(parts@).take(parts@.len() as int) =~= strs(parts@));
    out
}

fn msg_num(a: &str, n: u64, b: &str) -> (r: String)
    ensures
        r@ == a@ + decimal(n as nat) + b@,
{
    let mut v: Vec<char> = Vec::new();
    extend_str(&mut v, a);
    push_decimal(&mut v, n);
    extend_str(&mut v, b);
    string_of(v.as_slice())
}

fn msg_text(a: &str, t: &str) -> (r: String)
    ensures
        r@ == a@ + t@,
{
    let mut v: Vec<char> = Vec::new();
    extend_str(&mut v, a);
    extend_str(&mut v, t);
    string_of(v.as_slice())
}

/// The emulator-path repair step, given how many entries the installer
/// repair refreshed (or its error).
pub fn emulator_paths_check(repair: Result<usize, String>) -> (r: CheckResult)
    ensures
        match repair {
            Ok(n) => if n > 0 {
                plain_row(r, "emulator-paths"@, "Emulator install paths"@, CheckStatus::Repaired,
                    "Refreshed exe locations for "@ + decimal(n as nat) + " emulator(s) after install repair."@)
            } else {
                plain_row(r, "emulator-paths"@, "Emulator install paths"@, CheckStatus::Healthy,
                    "All installed emulators already have valid exe paths."@)
            },
            Err(e) => plain_row(r, "emulator-paths"@, "Emulator install paths"@, CheckStatus::Failed,
                "installer_repair failed: "@ + e@),
        },
{
    match repair {
        Ok(n) => if n > 0 {
            let m = msg_num("Refreshed exe locations for ", n as u64, " emulator(s) after install repair.");
            CheckResult::repaired("emulator-paths", "Emulator install paths", m.as_str())
        } else {
            CheckResult::ok("emulator-paths", "Emulator install paths",
                "All installed emulators already have valid exe paths.")
        },
        Err(e) => {
            let m = msg_text("installer_repair failed: ", e.as_str());
            CheckResult::failed("emulator-paths", "Emulator install paths", m.as_str())
        },
    }
}

/// The emulator-binaries step: `total` bundled emulators of which
/// `installed` were present and `missing` were not; `new_count` of the
/// missing ones were then installed.
pub fn emulators_check(total: usize, installed: usize, missing: usize, new_count: usize) -> (r: CheckResult)
    requires
        new_count <= missing,
    ensures
        missing == 0 ==> plain_row(r, "emulators"@, "Emulator binaries"@, CheckStatus::Healthy,
            "All "@ + decimal(total as nat) + " emulator(s) installed."@),
        missing > 0 && new_count == missing ==> plain_row(r, "emulators"@, "Emulator binaries"@,
            CheckStatus::Repaired, "Installed "@ + decimal(new_count as nat) + " missing emulator(s) ("@
            + decimal(installed as nat) + " were already present)."@),
        missing > 0 && new_count < missing ==> plain_row(r, "emulators"@, "Emulator binaries"@,
            CheckStatus::NeedsUser, decimal(new_count as nat) + " of "@ + decimal(missing as nat)
            + " missing emulator(s) installed; "@ + decimal((missing - new_count) as nat)
            + " failed (network down or upstream URL changed). Re-run Repair when online."@),
{
    if missing == 0 {
        let m = msg_num("All ", total as u64, " emulator(s) installed.");
        return CheckResult::ok("emulators", "Emulator binaries", m.as_str());
    }
    if new_count == missing {
        let mut v: Vec<char> = Vec::new();
        extend_str(&mut v, "Installed ");
        push_decimal(&mut v, new_count as u64);
        extend_str(&mut v, " missing emulator(s) (");
        push_decimal(&mut v, installed as u64);
        extend_str(&mut v, " were already present).");
        let m = string_of(v.as_slice());
        return CheckResult::repaired("emulators", "Emulator binaries", m.as_str());
    }
    let mut v: Vec<char> = Vec::new();
    push_decimal(&mut v, new_count as u64);
    extend_str(&mut v, " of ");
    push_decimal(&mut v, missing as u64);
    extend_str(&mut v, " missing emulator(s) installed; ");
    push_decimal(&mut v, (missing - new_count) as u64);
    extend_str(&mut v, " failed (network down or upstream URL changed). Re-run Repair when online.");
    let m = string_of(v.as_slice());
    CheckResult::needs_user("emulators", "Emulator binaries", m.as_str())
}

/// A file in RetroArch's cores folder is a libretro core: a `.dll` named
/// `*_libretro.dll`.
pub open spec fn is_core_file(name: Seq<char>) -> bool {
    extension_of(name) == Some("dll"@) && ends_with(name, "_libretro.dll"@)
}

/// Whether a file name in the cores folder is a libretro core.
pub fn is_libretro_core(file_name: &str) -> (r: bool)
    ensures
        r == is_core_file(file_name@),
{
    let n = chars_of(file_name);
    let e = crate::library::platform::extension_chars(n.as_slice());
    let is_dll = match e {
        Some(x) => crate::text::chars_eq(x.as_slice(), chars_of("dll").as_slice()),
        None => false,
    };
    is_dll && ends_with_str(n.as_slice(), "_libretro.dll")
}

/// Fewest libretro cores a complete bundle has.
pub const MIN_CORES: usize = 50;

/// The RetroArch-cores step, given the cores folder, whether it exists
/// and how many libretro cores it holds.
pub fn retroarch_cores_check(cores_dir: &str, exists: bool, count: usize) -> (r: CheckResult)
    ensures
        !exists ==> plain_row(r, "retroarch-cores"@, "RetroArch cores"@, CheckStatus::NeedsUser,
            "RetroArch isn't installed yet — install it from Settings → Emulators or run Repair to install everything."@),
        exists && count >= MIN_CORES ==> plain_row(r, "retroarch-cores"@, "RetroArch cores"@,
            CheckStatus::Healthy, decimal(count as nat) + " libretro cores installed."@),
        exists && count < MIN_CORES ==> r.id@ == "retroarch-cores"@ && r.title@ == "RetroArch cores"@
            && r.status == CheckStatus::NeedsUser && r.message@ == "Only "@ + decimal(count as nat)
            + " libretro cores found; the bundle didn't fully extract. Re-install RetroArch from Settings → Emulators."@
            && opt_chars(r.action_path) == Some(cores_dir@) && r.action_url is None,
{
    if !exists {
        return CheckResult::needs_user("retroarch-cores", "RetroArch cores",
            "RetroArch isn't installed yet — install it from Settings → Emulators or run Repair to install everything.");
    }
    if count >= MIN_CORES {
        let m = msg_num("", count as u64, " libretro cores installed.");
        proof {
            reveal_strlit("");
            assert(""@ + decimal(count as nat) =~= decimal(count as nat));
        }
        return CheckResult::ok("retroarch-cores", "RetroArch cores", m.as_str());
    }
    let m = msg_num("Only ", count as u64,
        " libretro cores found; the bundle didn't fully extract. Re-install RetroArch from Settings → Emulators.");
    CheckResult::needs_user("retroarch-cores", "RetroArch cores", m.as_str()).with_path(cores_dir)
}

/// The consoles whose BIOS or firmware is in place, and those missing,
/// given whether the PS1 and PS2 BIOS folders hold files and whether the
/// PS3 firmware is installed (`None` when RPCS3's folder is unknown).
pub open spec fn bios_lists(ps1: bool, ps2: bool, ps3: Option<bool>) -> (Seq<Seq<char>>, Seq<Seq<char>>) {
    let have = (if ps1 { seq!["PS1"@] } else { seq![] }) + (if ps2 { seq!["PS2"@] } else { seq![] })
        + (if ps3 == Some(true) { seq!["PS3"@] } else { seq![] });
    let missing = (if !ps1 { seq!["PS1"@] } else { seq![] }) + (if !ps2 { seq!["PS2"@] } else { seq![] })
        + (if ps3 == Some(false) { seq!["PS3"@] } else { seq![] });
    (have, missing)
}

/// The BIOS-status step.
pub fn bios_check(ps1: bool, ps2: bool, ps3: Option<bool>) -> (r: CheckResult)
    ensures
        ({
            let (have, missing) = bios_lists(ps1, ps2, ps3);
            &&& missing.len() == 0 ==> plain_row(r, "bios"@, "Console BIOS / firmware"@, CheckStatus::Healthy,
                "BIOS in place for: "@ + joined(have, ", "@))
            &&& missing.len() > 0 ==> plain_row(r, "bios"@, "Console BIOS / firmware"@, CheckStatus::NeedsUser,
                "Missing BIOS for: "@ + joined(missing, ", "@)
                + ". Abyss can't legally ship these — see Settings for the legal-dump guides. PS3 firmware can be auto-installed via Sony's free public download (one click below)."@)
        }),
{
    let mut have: Vec<String> = Vec::new();
    let mut missing: Vec<String> = Vec::new();
    if ps1 {
        have.push(owned("PS1"));
    } else {
        missing.push(owned("PS1"));
    }
    if ps2 {
        have.push(owned("PS2"));
    } else {
        missing.push(owned("PS2"));
    }
    match ps3 {
        Some(true) => have.push(owned("PS3")),
        Some(false) => missing.push(owned("PS3")),
        None => {},
    }
    let ghost (hv, mv) = bios_lists(ps1, ps2, ps3);
    assert(strs(have@) =~= hv);
    assert(strs(missing@) =~= mv);
    if missing.len() == 0 {
        let j = join_comma(&have);
        let mut v: Vec<char> = Vec::new();
        extend_str(&mut v, "BIOS in place for: ");
        extend_chars(&mut v, j.as_slice());
        let m = string_of(v.as_slice());
        return CheckResult::ok("bios", "Console BIOS / firmware", m.as_str());
    }
    let j = join_comma(&missing);
    let mut v: Vec<char> = Vec::new();
    extend_str(&mut v, "Missing BIOS for: ");
    extend_chars(&mut v, j.as_slice());
    extend_str(&mut v, ". Abyss can't legally ship these — see Settings for the legal-dump guides. PS3 firmware can be auto-installed via Sony's free public download (one click below).");
    let m = string_of(v.as_slice());
    CheckResult::needs_user("bios", "Console BIOS / firmware", m.as_str())
}

/// The BIOS auto-find step when it copied BIOS files for these slots.
pub fn bios_found_check(labels: &Vec<String>) -> (r: CheckResult)
    ensures
        plain_row(r, "bios-found"@, "Console BIOS auto-find"@, CheckStatus::Repaired,
            "Located + installed BIOS for: "@ + joined(strs(labels@), ", "@)),
{
    let j = join_comma(labels);
    let mut v: Vec<char> = Vec::new();
    extend_str(&mut v, "Located + installed BIOS for: ");
    extend_chars(&mut v, j.as_slice());
    let m = string_of(v.as_slice());
    CheckResult::repaired("bios-found", "Console BIOS auto-find", m.as_str())
}

/// The BIOS auto-find step when its scan failed.
pub fn bios_scan_failed(error: &str) -> (r: CheckResult)
    ensures
        plain_row(r, "bios-found"@, "Console BIOS auto-find"@, CheckStatus::Failed, "scan failed: "@ + error@),
{
    let m = msg_text("scan failed: ", error);
    CheckResult::failed("bios-found", "Console BIOS auto-find", m.as_str())
}

/// The controller-defaults step, given the emulators whose defaults were
/// just written.
pub fn controller_defaults_check(configured: &Vec<String>) -> (r: CheckResult)
    ensures
        configured@.len() == 0 ==> plain_row(r, "controller-defaults"@, "Controller defaults"@,
            CheckStatus::Healthy, "PCSX2, DuckStation, and Dolphin gamepad bindings already in place."@),
        configured@.len() > 0 ==> plain_row(r, "controller-defaults"@, "Controller defaults"@,
            CheckStatus::Repaired, "Seeded gamepad config for: "@ + joined(strs(configured@), ", "@)),
{
    if configured.len() == 0 {
        return CheckResult::ok("controller-defaults", "Controller defaults",
            "PCSX2, DuckStation, and Dolphin gamepad bindings already in place.");
    }
    let j = join_comma(configured);
    let mut v: Vec<char> = Vec::new();
    extend_str(&mut v, "Seeded gamepad config for: ");
    extend_chars(&mut v, j.as_slice());
    let m = string_of(v.as_slice());
    CheckResult::repaired("controller-defaults", "Controller defaults", m.as_str())
}

/// The Moonlight step, from the streaming apps found installed.
pub fn check_moonlight(found: &StreamingInstallReport) -> (r: CheckResult)
    ensures
        found.moonlight_installed ==> plain_row(r, "moonlight"@, "Moonlight streaming client"@,
            CheckStatus::Healthy, "Moonlight is installed."@),
        !found.moonlight_installed ==> plain_row(r, "moonlight"@, "Moonlight streaming client"@,
            CheckStatus::NeedsUser,
            "Moonlight isn't installed — click 'Install Sunshine + Moonlight' in Settings → Streaming. Abyss will download both directly from their official GitHub releases (one UAC prompt for Sunshine)."@),
{
    if found.moonlight_installed {
        CheckResult::ok("moonlight", "Moonlight streaming client", "Moonlight is installed.")
    } else {
        CheckResult::needs_user("moonlight", "Moonlight streaming client",
            "Moonlight isn't installed — click 'Install Sunshine + Moonlight' in Settings → Streaming. Abyss will download both directly from their official GitHub releases (one UAC prompt for Sunshine).")
    }
}

/// What probing the Sunshine service found.
#[derive(Debug, Clone)]
pub enum SunshineProbe {
    /// The service query could not be run.
    QueryError(String),
    /// No such service.
    NotInstalled,
    /// The service is running.
    Running,
    /// It was stopped and starting it succeeded.
    Started,
    /// It was stopped and could not be started.
    StartFailed,
    /// Not a Windows host.
    Unsupported,
}

/// The Sunshine step.
pub fn check_sunshine(probe: SunshineProbe) -> (r: CheckResult)
    ensures
        r.id@ == "sunshine"@,
        r.title@ == "Sunshine streaming host"@,
        match probe {
            SunshineProbe::QueryError(e) => plain_row(r, "sunshine"@, "Sunshine streaming host"@,
                CheckStatus::Failed, "Couldn't query SunshineService: "@ + e@),
            SunshineProbe::NotInstalled => plain_row(r, "sunshine"@, "Sunshine streaming host"@,
                CheckStatus::NeedsUser,
                "Sunshine isn't installed — streaming is optional, install it from Settings → Streaming."@),
            SunshineProbe::Running => plain_row(r, "sunshine"@, "Sunshine streaming host"@,
                CheckStatus::Healthy, "SunshineService is running. Admin UI at https://localhost:47990"@),
            SunshineProbe::Started => plain_row(r, "sunshine"@, "Sunshine streaming host"@,
                CheckStatus::Repaired, "SunshineService was stopped — Abyss started it."@),
            SunshineProbe::StartFailed => plain_row(r, "sunshine"@, "Sunshine streaming host"@,
                CheckStatus::NeedsUser,
                "SunshineService is installed but couldn't be started without admin rights. Right-click Abyss → Run as administrator, then click Repair again."@),
            SunshineProbe::Unsupported => plain_row(r, "sunshine"@, "Sunshine streaming host"@,
                CheckStatus::Skipped, "Windows-only check."@),
        },
{
    match probe {
        SunshineProbe::QueryError(e) => {
            let m = msg_text("Couldn't query SunshineService: ", e.as_str());
            CheckResult::failed("sunshine", "Sunshine streaming host", m.as_str())
        },
        SunshineProbe::NotInstalled => CheckResult::needs_user("sunshine", "Sunshine streaming host",
            "Sunshine isn't installed — streaming is optional, install it from Settings → Streaming."),
        SunshineProbe::Running => CheckResult::ok("sunshine", "Sunshine streaming host",
            "SunshineService is running. Admin UI at https://localhost:47990"),
        SunshineProbe::Started => CheckResult::repaired("sunshine", "Sunshine streaming host",
            "SunshineService was stopped — Abyss started it."),
        SunshineProbe::StartFailed => CheckResult::needs_user("sunshine", "Sunshine streaming host",
            "SunshineService is installed but couldn't be started without admin rights. Right-click Abyss → Run as administrator, then click Repair again."),
        SunshineProbe::Unsupported => CheckResult::skipped("sunshine", "Sunshine streaming host",
            "Windows-only check."),
    }
}

/// The PS3-firmware step, given whether RPCS3's firmware folder exists
/// (`None` when the app data folder is unknown).
pub fn check_ps3_firmware(dev_flash: Option<bool>) -> (r: CheckResult)
    ensures
        dev_flash == Some(true) ==> plain_row(r, "ps3-firmware"@, "PS3 firmware (RPCS3)"@,
            CheckStatus::Healthy, "Sony PS3 firmware installed. RPCS3 ready."@),
        dev_flash == Some(false) ==> plain_row(r, "ps3-firmware"@, "PS3 firmware (RPCS3)"@,
            CheckStatus::NeedsUser,
            "RPCS3 needs Sony's PS3 firmware to boot any PS3 game. Sony publishes it for free — click 'Install PS3 firmware' in Settings → Emulators (one click, ~200 MB)."@),
        dev_flash is None ==> plain_row(r, "ps3-firmware"@, "PS3 firmware (RPCS3)"@,
            CheckStatus::Skipped, "RPCS3 not installed yet."@),
{
    match dev_flash {
        Some(true) => CheckResult::ok("ps3-firmware", "PS3 firmware (RPCS3)",
            "Sony PS3 firmware installed. RPCS3 ready."),
        Some(false) => CheckResult::needs_user("ps3-firmware", "PS3 firmware (RPCS3)",
            "RPCS3 needs Sony's PS3 firmware to boot any PS3 game. Sony publishes it for free — click 'Install PS3 firmware' in Settings → Emulators (one click, ~200 MB)."),
        None => CheckResult::skipped("ps3-firmware", "PS3 firmware (RPCS3)", "RPCS3 not installed yet."),
    }
}

/// Where to add an antivirus exclusion.
pub const AV_EXCLUSION_URL: &'static str = "https://support.microsoft.com/en-us/windows/add-an-exclusion-to-windows-security-811816c0-4dfd-af4a-47e4-c301afe13b26";

/// What probing and restarting the mesh sidecar found.
#[derive(Debug, Clone)]
pub enum MeshProbe {
    /// The control API answered.
    Healthy,
    /// Spawning failed; the sidecar binary is at `path` and `exists` says
    /// whether it is there.
    SpawnFailed { error: String, path: String, exists: bool },
    /// It was down and answered after a restart.
    Restarted,
    /// It was restarted but never answered.
    Unresponsive { path: String },
}

/// The mesh-sidecar step.
pub fn check_mesh(probe: MeshProbe) -> (r: CheckResult)
    ensures
        r.id@ == "mesh"@,
        r.title@ == "Mesh sidecar (abyss-mesh.exe)"@,
        match probe {
            MeshProbe::Healthy => plain_row(r, "mesh"@, "Mesh sidecar (abyss-mesh.exe)"@, CheckStatus::Healthy,
                "Mesh sidecar is alive and the control API is responding."@),
            MeshProbe::SpawnFailed { error, path, exists } => if exists {
                plain_row(r, "mesh"@, "Mesh sidecar (abyss-mesh.exe)"@, CheckStatus::Failed,
                    "Couldn't start the mesh sidecar: "@ + error@)
            } else {
                r.status == CheckStatus::NeedsUser && r.message@
                    == "The abyss-mesh.exe binary is missing from the install folder. Windows Defender or another antivirus probably quarantined it on install (unsigned Go binaries trip false positives). Add an exception for the path shown below, then reinstall Abyss."@
                    && opt_chars(r.action_path) == Some(path@)
                    && opt_chars(r.action_url) == Some(AV_EXCLUSION_URL@)
            },
            MeshProbe::Restarted => plain_row(r, "mesh"@, "Mesh sidecar (abyss-mesh.exe)"@, CheckStatus::Repaired,
                "Mesh sidecar wasn't running — Abyss restarted it."@),
            MeshProbe::Unresponsive { path } => r.status == CheckStatus::NeedsUser && r.message@
                == "The mesh sidecar was launched but its control API never responded. The most common cause is an antivirus product silently blocking it. Add an exclusion for the path shown below, then run Repair again."@
                && opt_chars(r.action_path) == Some(path@) && r.action_url is None,
        },
{
    match probe {
        MeshProbe::Healthy => CheckResult::ok("mesh", "Mesh sidecar (abyss-mesh.exe)",
            "Mesh sidecar is alive and the control API is responding."),
        MeshProbe::SpawnFailed { error, path, exists } => {
            if !exists {
                return CheckResult::needs_user("mesh", "Mesh sidecar (abyss-mesh.exe)",
                    "The abyss-mesh.exe binary is missing from the install folder. Windows Defender or another antivirus probably quarantined it on install (unsigned Go binaries trip false positives). Add an exception for the path shown below, then reinstall Abyss.")
                    .with_path(path.as_str()).with_url(AV_EXCLUSION_URL);
            }
            let m = msg_text("Couldn't start the mesh sidecar: ", error.as_str());
            CheckResult::failed("mesh", "Mesh sidecar (abyss-mesh.exe)", m.as_str())
        },
        MeshProbe::Restarted => CheckResult::repaired("mesh", "Mesh sidecar (abyss-mesh.exe)",
            "Mesh sidecar wasn't running — Abyss restarted it."),
        MeshProbe::Unresponsive { path } => CheckResult::needs_user("mesh", "Mesh sidecar (abyss-mesh.exe)",
            "The mesh sidecar was launched but its control API never responded. The most common cause is an antivirus product silently blocking it. Add an exclusion for the path shown below, then run Repair again.")
            .with_path(path.as_str()),
    }
}

} // verus!

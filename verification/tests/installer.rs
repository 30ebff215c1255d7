use std::collections::HashSet;

use abyss_singularity::installer::assign::{auto_assign, EmulatorCandidate};
use abyss_singularity::installer::bios::{bios_slots, identify_bios, is_bios_dump, matches_fingerprint};
use abyss_singularity::installer::controller_setup::{
    apply_all_defaults, dolphin_seed, duckstation_seed_for, pcsx2_seed, DOLPHIN_GCPAD1_BLOCK,
    DUCKSTATION_PAD1_BLOCK, PCSX2_INI_SEED,
};
use abyss_singularity::installer::download::{
    pick_asset, release_api_url, retroarch_cores_url, url_source, UrlSource,
};
use abyss_singularity::installer::ini::{
    ensure_input_source, replace_section, upsert_kv_line,
};
use abyss_singularity::installer::emulators::install_assignments_for;
use abyss_singularity::installer::manifests;
use abyss_singularity::installer::streaming::{detect_existing, generate_password, StreamingInstallReport};
use abyss_singularity::installer::streaming_install::{
    install_failure_context, installer_plan, pick_release_asset, streaming_install_step, InstallStage,
    InstallerSource, StreamingAction, StreamingApp, StreamingEvent,
};
use abyss_singularity::installer::types::EmulatorInstallState;
use abyss_singularity::library::platform::Platform;
use sha2::Digest;

// ---------- ini editing -------------------------------------------------------

#[test]
fn ensure_input_source_replaces_existing() {
    let ini = "[InputSources]\nKeyboard = true\nXInput = false\n\n[Other]\nx = 1\n";
    let out = ensure_input_source(ini, "XInput", "true");
    assert!(out.contains("XInput = true"));
    assert!(!out.contains("XInput = false"));
    assert!(out.contains("[Other]"));
    assert!(out.contains("x = 1"));
}

#[test]
fn ensure_input_source_adds_section_when_missing() {
    let ini = "[Foo]\na = 1\n";
    let out = ensure_input_source(ini, "XInput", "true");
    assert!(out.contains("[InputSources]"));
    assert!(out.contains("XInput = true"));
}

#[test]
fn replace_section_swaps_pad1_block() {
    let ini = "[InputSources]\nSDL = true\n\n[Pad1]\nType = DualShock2\nUp = Keyboard/Up\n\n[Pad2]\nType = None\n";
    let out = replace_section(ini, "[Pad1]", "[Pad1]\nType = DualShock2\nUp = SDL-0/DPadUp");
    assert!(out.contains("Up = SDL-0/DPadUp"));
    assert!(!out.contains("Up = Keyboard/Up"));
    assert!(out.contains("[Pad2]"));
}

#[test]
fn replace_section_appends_when_missing() {
    let ini = "[InputSources]\nSDL = true\n";
    let out = replace_section(ini, "[Pad1]", "[Pad1]\nType = DualShock2");
    assert!(out.contains("[Pad1]"));
    assert!(out.contains("Type = DualShock2"));
}

#[test]
fn upsert_kv_line_rewrites_or_appends() {
    assert_eq!(upsert_kv_line("A = 1\nB = 2", "B", "3"), "A = 1\nB = 3\n");
    assert_eq!(upsert_kv_line("A = 1\n  b=2\n", "B", "3"), "A = 1\nB = 3\n");
    assert_eq!(upsert_kv_line("A = 1", "C", "9"), "\nC = 9\nA = 1\n");
    assert_eq!(upsert_kv_line("", "C", "9"), "\nC = 9\n");
}

#[test]
fn dolphin_seed_block_binds_to_xinput_pad_0() {
    assert!(DOLPHIN_GCPAD1_BLOCK.contains("[GCPad1]"));
    assert!(DOLPHIN_GCPAD1_BLOCK.contains("Device = XInput/0/Gamepad"));
    for needle in [
        "Buttons/A", "Buttons/Start", "Triggers/L", "Triggers/R",
        "Main Stick/Up", "C-Stick/Up", "D-Pad/Up", "Rumble/Motor",
    ] {
        assert!(DOLPHIN_GCPAD1_BLOCK.contains(needle), "Dolphin seed missing binding {needle}");
    }
}

// ---------- controller seeding -------------------------------------------------

#[test]
fn pcsx2_seed_writes_fresh_upgrades_defaults_and_leaves_custom() {
    assert_eq!(pcsx2_seed(None).as_deref(), Some(PCSX2_INI_SEED));

    let keyboard_only = "[InputSources]\nKeyboard = true\nXInput = false\n\n[Pad1]\nType = DualShock2\nTriangle = Keyboard/I\nCross = Keyboard/K\nSquare = Keyboard/J\nCircle = Keyboard/L\n";
    let upgraded = pcsx2_seed(Some(keyboard_only)).expect("default config is upgraded");
    assert!(upgraded.contains("XInput = true"));
    assert!(upgraded.contains("SDL = true"));
    assert!(upgraded.contains("Cross = SDL-0/A & Keyboard/K"));
    assert!(!upgraded.contains("Cross = Keyboard/K\n"));

    let custom = "[Pad1]\nCross = SDL-0/A\n";
    assert_eq!(pcsx2_seed(Some(custom)), None);
}

#[test]
fn duckstation_seed_respects_existing_sdl_binding() {
    let fresh = duckstation_seed_for(None).unwrap();
    assert!(fresh.starts_with("[InputSources]\nSDL = true\nXInput = false\nDInput = false\n\n"));
    assert!(fresh.ends_with(&format!("{DUCKSTATION_PAD1_BLOCK}\n")));

    assert_eq!(duckstation_seed_for(Some("[Pad1]\nUp = SDL-0/DPadUp\n")), None);

    let keyboard = duckstation_seed_for(Some("[Pad1]\nUp = Keyboard/W\n")).unwrap();
    assert!(keyboard.contains("SDL = true"));
    assert!(keyboard.contains("Up = SDL-0/DPadUp & Keyboard/W"));
}

#[test]
fn dolphin_seed_only_when_missing_and_applied_ids_in_order() {
    assert_eq!(dolphin_seed(false).as_deref(), Some(DOLPHIN_GCPAD1_BLOCK));
    assert_eq!(dolphin_seed(true), None);
    assert_eq!(
        apply_all_defaults(Ok(true), Err("disk full".into()), Ok(true)),
        vec!["pcsx2".to_string(), "dolphin".to_string()]
    );
    assert!(apply_all_defaults(Ok(false), Ok(false), Err("x".into())).is_empty());
}

// ---------- manifests ------------------------------------------------------------

#[test]
fn all_manifests_have_unique_ids() {
    let mut seen: HashSet<String> = HashSet::new();
    for m in manifests::all().iter() {
        assert!(seen.insert(m.id.clone()), "duplicate manifest id: {}", m.id);
    }
}

#[test]
fn retroarch_covers_the_major_retro_platforms() {
    let m = manifests::find_by_id("retroarch").expect("retroarch manifest");
    for required in [
        Platform::Nes, Platform::Snes, Platform::N64, Platform::GameboyAdvance,
        Platform::Genesis, Platform::Ps1, Platform::Psp,
    ] {
        assert!(m.platforms.contains(&required), "RetroArch missing {required:?}");
    }
}

#[test]
fn urls_are_https_or_gh_latest() {
    for m in manifests::all() {
        assert!(
            m.url.starts_with("https://") || m.url.starts_with("gh-latest://"),
            "{} download URL is not https or gh-latest: {}", m.id, m.url,
        );
    }
}

#[test]
fn embeddable_flags_are_set_intentionally() {
    for m in manifests::all() {
        match m.id.as_str() {
            "retroarch" | "mgba" | "ppsspp" | "desmume" | "snes9x" | "stella" => assert!(m.embeddable),
            "pcsx2" | "rpcs3" | "dolphin" | "cemu" | "pcsx-redux" | "project64" | "flycast" => assert!(!m.embeddable),
            other => panic!("unknown manifest id {other} — update this test"),
        }
    }
}

#[test]
fn find_by_id_misses_unknown_ids() {
    assert!(manifests::find_by_id("no-such-emulator").is_none());
    let d = manifests::find_by_id("dolphin").unwrap();
    assert_eq!(d.id, "dolphin");
    let state = EmulatorInstallState::new(d, Some("C:/emu/Dolphin.exe".into()));
    assert!(state.installed);
}

// ---------- downloads --------------------------------------------------------------

#[test]
fn url_source_parses_gh_latest_references() {
    match url_source("gh-latest://PCSX2/pcsx2/Windows-x64-Qt.7Z").unwrap() {
        UrlSource::GhLatest { owner, repo, needle } => {
            assert_eq!(owner, "PCSX2");
            assert_eq!(repo, "pcsx2");
            assert_eq!(needle, "windows-x64-qt.7z");
        }
        other => panic!("expected gh-latest, got {other:?}"),
    }
    match url_source("https://example.com/a.zip").unwrap() {
        UrlSource::Direct(u) => assert_eq!(u, "https://example.com/a.zip"),
        other => panic!("expected direct, got {other:?}"),
    }
    assert_eq!(
        url_source("gh-latest://owner").unwrap_err(),
        "gh-latest:// missing repo: gh-latest://owner"
    );
    assert_eq!(
        url_source("gh-latest://owner/repo").unwrap_err(),
        "gh-latest:// missing asset substring: gh-latest://owner/repo"
    );
}

#[test]
fn release_assets_are_picked_case_insensitively() {
    assert_eq!(
        release_api_url("hrydgard", "ppsspp"),
        "https://api.github.com/repos/hrydgard/ppsspp/releases/latest"
    );
    let names = vec!["notes.txt".to_string(), "PPSSPP-Windows-AMD64.ZIP".to_string()];
    assert_eq!(pick_asset(&names, "windows-amd64"), Some(1));
    assert_eq!(pick_asset(&names, "linux"), None);
}

#[test]
fn retroarch_cores_sit_next_to_the_frontend() {
    assert_eq!(
        retroarch_cores_url("https://buildbot.libretro.com/stable/1.19.1/windows/x86_64/RetroArch.7z"),
        "https://buildbot.libretro.com/stable/1.19.1/windows/x86_64/RetroArch_cores.7z"
    );
}

// ---------- BIOS --------------------------------------------------------------------

#[test]
fn bios_is_identified_by_name_and_exact_size() {
    assert_eq!(
        identify_bios("SCPH1001.BIN", 524_288).as_deref(),
        Some("PS1 (DuckStation + RetroArch libretro cores)")
    );
    assert_eq!(identify_bios("scph1001.bin", 1024), None);
    assert_eq!(identify_bios("scph39001.bin", 4_194_304).as_deref(), Some("PS2 (PCSX2)"));
    assert_eq!(identify_bios("a-readme.txt", 524_288), None);
    let slots = bios_slots();
    assert_eq!(slots.len(), 3);
    assert!(matches_fingerprint(&slots[2].fingerprints, "dc_flash.bin", 131_072));
    assert!(!matches_fingerprint(&slots[2].fingerprints, "DC_FLASH.BIN", 131_072));
}

#[test]
fn bios_fingerprint_needs_the_exact_size() {
    let slots = bios_slots();
    assert!(matches_fingerprint(&slots[0].fingerprints, "scph1001.bin", 524_288));
    assert!(!matches_fingerprint(&slots[0].fingerprints, "scph1001.bin", 524_287));
    assert!(!matches_fingerprint(&slots[0].fingerprints, "scph1001.bin", 524_289));
    assert!(!matches_fingerprint(&slots[0].fingerprints, "scph1001.bin", 4_194_304));
}

#[test]
fn bios_fingerprint_matches_any_file_of_its_slot() {
    let slots = bios_slots();
    for name in ["scph1001.bin", "scph5501.bin", "scph7503.bin", "ps-30a.bin"] {
        assert!(matches_fingerprint(&slots[0].fingerprints, name, 524_288), "{name}");
    }
    for name in ["scph10000.bin", "scph39001.bin", "scph90001.bin"] {
        assert!(matches_fingerprint(&slots[1].fingerprints, name, 4_194_304), "{name}");
    }
    assert!(matches_fingerprint(&slots[2].fingerprints, "dc_boot.bin", 2_097_152));
    // A PS2 file is not a PS1 BIOS, whatever its size.
    assert!(!matches_fingerprint(&slots[0].fingerprints, "scph39001.bin", 4_194_304));
    assert!(!matches_fingerprint(&slots[0].fingerprints, "unknown.bin", 524_288));
}

#[test]
fn bios_identification_ignores_case() {
    assert_eq!(
        identify_bios("ScPh5501.BiN", 524_288).as_deref(),
        Some("PS1 (DuckStation + RetroArch libretro cores)")
    );
    assert_eq!(identify_bios("DC_BOOT.BIN", 2_097_152).as_deref(), Some("Dreamcast (Flycast + libretro)"));
    assert_eq!(identify_bios("SCPH39001.BIN", 524_288), None);
    let slots = bios_slots();
    assert!(is_bios_dump(&slots[0].fingerprints, "SCPH1001.BIN", 524_288));
    assert!(is_bios_dump(&slots[0].fingerprints, "Scph5500.Bin", 524_288));
    assert!(!is_bios_dump(&slots[0].fingerprints, "SCPH1001.BIN", 1024));
    assert!(!is_bios_dump(&slots[0].fingerprints, "a-readme.txt", 524_288));
}

// ---------- streaming-app install flow --------------------------------------------------

fn report(sun: bool, moon: bool, ts: bool) -> StreamingInstallReport {
    StreamingInstallReport {
        sunshine_installed: sun,
        sunshine_path: if sun { Some("C:\\Program Files\\Sunshine\\sunshine.exe".to_string()) } else { None },
        moonlight_installed: moon,
        moonlight_path: None,
        tailscale_installed: ts,
        tailscale_path: None,
        auto_creds_user: None,
        auto_creds_pass: None,
        messages: Vec::new(),
    }
}

#[test]
fn streaming_flow_with_everything_present_is_done_at_once() {
    let (r, a) = streaming_install_step(report(true, true, true), StreamingEvent::Start);
    assert!(matches!(a, StreamingAction::Done));
    assert_eq!(r.messages, vec!["Sunshine + Moonlight + Tailscale already installed.".to_string()]);
}

#[test]
fn streaming_flow_fresh_install_sets_sunshine_credentials() {
    let (r, a) = streaming_install_step(report(false, false, false), StreamingEvent::Start);
    assert!(matches!(a, StreamingAction::Install(StreamingApp::Sunshine)));
    assert!(r.messages.is_empty());
    let exe = "C:\\Program Files\\Sunshine\\sunshine.exe".to_string();
    let (r, a) = streaming_install_step(
        r,
        StreamingEvent::Installed { app: StreamingApp::Sunshine, found: Some(exe.clone()) },
    );
    match a {
        StreamingAction::SetSunshineCredentials { exe: e, user } => {
            assert_eq!(e, exe);
            assert_eq!(user, "abyss");
        }
        other => panic!("unexpected action {other:?}"),
    }
    assert!(r.sunshine_installed);
    assert_eq!(r.sunshine_path.as_deref(), Some(exe.as_str()));
    assert_eq!(r.messages, vec!["Sunshine installed.".to_string()]);
    let (r, a) = streaming_install_step(
        r,
        StreamingEvent::CredentialsSet { pass: "pw".to_string(), outcome: Ok(()) },
    );
    assert!(matches!(a, StreamingAction::Install(StreamingApp::Moonlight)));
    assert_eq!(r.auto_creds_user.as_deref(), Some("abyss"));
    assert_eq!(r.auto_creds_pass.as_deref(), Some("pw"));
    assert_eq!(r.messages[1], "Sunshine credentials configured silently — no browser dance needed.");
    let (r, a) = streaming_install_step(
        r,
        StreamingEvent::Installed { app: StreamingApp::Moonlight, found: None },
    );
    assert!(matches!(a, StreamingAction::Install(StreamingApp::Tailscale)));
    assert!(!r.moonlight_installed);
    assert_eq!(r.messages[2], "Moonlight installer ran but the binary isn't where expected.");
    let (r, a) = streaming_install_step(
        r,
        StreamingEvent::Installed { app: StreamingApp::Tailscale, found: Some("ts.exe".to_string()) },
    );
    assert!(matches!(a, StreamingAction::Done));
    assert!(r.tailscale_installed);
    assert_eq!(r.tailscale_path.as_deref(), Some("ts.exe"));
    assert_eq!(r.messages.len(), 4);
    assert_eq!(r.messages[3], "Tailscale installed.");
}

#[test]
fn streaming_flow_skips_present_apps_and_keeps_sunshine_config() {
    let (r, a) = streaming_install_step(report(true, false, true), StreamingEvent::Start);
    assert!(matches!(a, StreamingAction::Install(StreamingApp::Moonlight)));
    assert_eq!(
        r.messages,
        vec!["Sunshine was already installed; skipped credential setup to preserve any existing config."
            .to_string()]
    );
    let (r, a) = streaming_install_step(
        r,
        StreamingEvent::Installed { app: StreamingApp::Moonlight, found: Some("m.exe".to_string()) },
    );
    assert!(matches!(a, StreamingAction::Done));
    assert_eq!(r.auto_creds_user, None);
    assert_eq!(
        r.messages[1..].to_vec(),
        vec!["Moonlight installed.".to_string(), "Tailscale was already installed; skipped.".to_string()]
    );
}

#[test]
fn streaming_flow_reports_credential_failure_and_missing_sunshine() {
    let (r, a) = streaming_install_step(
        report(false, true, true),
        StreamingEvent::Installed { app: StreamingApp::Sunshine, found: None },
    );
    assert!(matches!(a, StreamingAction::Done));
    assert_eq!(
        r.messages,
        vec![
            "Sunshine installer ran but the binary isn't where expected — user may have cancelled the UAC prompt."
                .to_string(),
            "Moonlight was already installed; skipped.".to_string(),
            "Tailscale was already installed; skipped.".to_string(),
        ]
    );
    let (r, _) = streaming_install_step(
        report(true, true, false),
        StreamingEvent::CredentialsSet { pass: "pw".to_string(), outcome: Err("access denied".to_string()) },
    );
    assert_eq!(r.auto_creds_pass, None);
    assert_eq!(
        r.messages[0],
        "Sunshine installed but auto-credential setup failed: access denied. You can set them manually at \
         https://localhost:47990 or via Settings → Streaming."
    );
}

#[test]
fn streaming_flow_aborts_with_context() {
    let (_, a) = streaming_install_step(
        report(false, false, false),
        StreamingEvent::Failed {
            app: StreamingApp::Moonlight,
            stage: InstallStage::Download("https://x/y.exe".to_string()),
            cause: "timed out".to_string(),
        },
    );
    match a {
        StreamingAction::Abort(e) => assert_eq!(e, "downloading Moonlight from https://x/y.exe: timed out"),
        other => panic!("unexpected action {other:?}"),
    }
    assert_eq!(
        install_failure_context(StreamingApp::Sunshine, &InstallStage::ResolveUrl),
        "resolving Sunshine installer URL"
    );
    assert_eq!(
        install_failure_context(StreamingApp::Tailscale, &InstallStage::RunInstaller),
        "running Tailscale installer"
    );
}

#[test]
fn streaming_installer_plans() {
    let sun = installer_plan(StreamingApp::Sunshine);
    assert!(sun.elevated);
    assert_eq!(sun.file_name, "abyss-Sunshine-installer.exe");
    assert!(matches!(
        sun.source,
        InstallerSource::LatestRelease { owner: "LizardByte", repo: "Sunshine", asset: "windows-amd64-installer.exe" }
    ));
    let moon = installer_plan(StreamingApp::Moonlight);
    assert!(!moon.elevated);
    assert_eq!(moon.args, "/S");
    let ts = installer_plan(StreamingApp::Tailscale);
    assert!(matches!(
        ts.source,
        InstallerSource::Direct("https://pkgs.tailscale.com/stable/tailscale-setup-latest.exe")
    ));
    let names = vec!["Sunshine.zip".to_string(), "MoonlightSetup-6.1.0.exe".to_string()];
    assert_eq!(pick_release_asset(&names, "MoonlightSetup-"), Some(1));
    assert_eq!(pick_release_asset(&names, "missing"), None);
}

#[test]
fn an_install_takes_over_only_unassigned_platforms() {
    let platforms = vec![Platform::Ps1, Platform::Snes, Platform::Ps1, Platform::Nes];
    let assigned = vec![Platform::Snes];
    assert_eq!(install_assignments_for(&platforms, &assigned), vec![Platform::Ps1, Platform::Nes]);
    assert!(install_assignments_for(&platforms, &platforms).is_empty());
}

// ---------- auto-assignment ------------------------------------------------------------

fn cand(id: &str, exe: &str, platforms: Vec<Platform>) -> EmulatorCandidate {
    EmulatorCandidate { id: id.to_string(), exe: exe.to_string(), platforms }
}

#[test]
fn auto_assign_prefers_retroarch_and_skips_assigned_platforms() {
    let cands = vec![
        cand("mgba", "C:/mgba.exe", vec![Platform::GameboyAdvance]),
        cand("retroarch", "C:/ra.exe", vec![Platform::Nes, Platform::GameboyAdvance]),
        cand("pcsx2", "", vec![Platform::Ps2]),
    ];
    let out = auto_assign(&cands, &vec![Platform::Nes]);
    assert_eq!(out, vec![(Platform::GameboyAdvance, "retroarch".to_string())]);
    let out = auto_assign(&cands, &vec![]);
    assert_eq!(
        out,
        vec![
            (Platform::Nes, "retroarch".to_string()),
            (Platform::GameboyAdvance, "retroarch".to_string()),
        ]
    );
}

// ---------- streaming apps -----------------------------------------------------------------

#[test]
fn detect_existing_reports_first_found_path() {
    let r = detect_existing([false, true], [false, false], [false, false, true]);
    assert!(r.sunshine_installed);
    assert_eq!(
        r.sunshine_path.as_deref(),
        Some("C:\\Program Files (x86)\\Sunshine\\sunshine.exe")
    );
    assert!(!r.moonlight_installed);
    assert!(r.moonlight_path.is_none());
    assert_eq!(
        r.tailscale_path.as_deref(),
        Some("C:\\Program Files\\Tailscale IPN\\tailscale-ipn.exe")
    );
    assert!(r.messages.is_empty());
}

#[test]
fn generated_password_is_drawn_from_the_digest() {
    let nanos: u128 = 1_700_000_000_123_456_789;
    let pid: u32 = 31337;
    let mut h = sha2::Sha256::new();
    h.update(nanos.to_le_bytes());
    h.update(pid.to_le_bytes());
    h.update(b"abyss-sunshine-credential-salt-v1");
    let digest = h.finalize();
    let alphabet: Vec<char> = "ABCDEFGHJKLMNPQRSTUVWXYZ23456789abcdefghjkmnpqrstuvwxyz".chars().collect();
    let expected: String =
        digest.iter().take(24).map(|b| alphabet[(*b as usize) % alphabet.len()]).collect();
    let pw = generate_password(nanos, pid);
    assert_eq!(pw, expected);
    assert_eq!(pw.chars().count(), 24);
    assert_ne!(generate_password(nanos + 1, pid), pw);
}

// ---------- launch configuration ------------------------------------------------------

use abyss_singularity::installer::emulators::{
    migrate_duckstation_args, prune_assignments, prune_orphans, repair_config, splice_install,
    EmulatorEntry, LaunchConfig, RecipeDefaults,
};
use abyss_singularity::installer::streaming::sunshine_creds_command;

fn slot(id: &str, exe: &str, args: &[&str]) -> EmulatorEntry {
    EmulatorEntry {
        id: id.to_string(),
        name: id.to_uppercase(),
        exe: exe.to_string(),
        args: args.iter().map(|a| a.to_string()).collect(),
        working_dir: None,
        env: vec![],
        platforms: vec![],
    }
}

#[test]
fn splice_refreshes_exe_but_keeps_custom_args() {
    let recipes = vec![RecipeDefaults {
        id: "dolphin".into(),
        args: vec!["-b".into(), "-e".into(), "{game_path}".into()],
        platforms: vec![Platform::GameCube, Platform::Wii],
    }];
    let dolphin = manifests::find_by_id("dolphin").unwrap();
    let mut slots = vec![slot("dolphin", "", &["--custom"])];
    splice_install(&mut slots, &dolphin, "C:/emu/dolphin/Dolphin.exe".into(), &recipes);
    assert_eq!(slots.len(), 1);
    assert_eq!(slots[0].exe, "C:/emu/dolphin/Dolphin.exe");
    assert_eq!(slots[0].name, dolphin.name);
    assert_eq!(slots[0].args, vec!["--custom".to_string()]);
    assert_eq!(slots[0].platforms, vec![Platform::GameCube, Platform::Wii]);

    let mgba = manifests::find_by_id("mgba").unwrap();
    splice_install(&mut slots, &mgba, "C:/emu/mgba/mGBA.exe".into(), &recipes);
    assert_eq!(slots.len(), 2);
    assert_eq!(slots[1].id, "mgba");
    assert!(slots[1].args.is_empty());
    assert_eq!(slots[1].platforms, mgba.platforms);
}

#[test]
fn repair_prunes_orphans_and_migrates_duckstation() {
    let cfg = LaunchConfig {
        emulators: vec![
            slot("ryujinx", "", &[]),
            slot("citra", "C:/mine/citra.exe", &[]),
            slot("pcsx-redux", "", &["-fullscreen", "{game_path}"]),
        ],
        assignments: vec![
            (Platform::Switch, "ryujinx".to_string()),
            (Platform::Ps1, "pcsx-redux".to_string()),
        ],
    };
    let recipe_ids = vec!["pcsx-redux".to_string()];
    let (fixed, changed) = repair_config(cfg, &recipe_ids);
    assert!(changed);
    let ids: Vec<&str> = fixed.emulators.iter().map(|e| e.id.as_str()).collect();
    assert_eq!(ids, vec!["citra", "pcsx-redux"]);
    assert_eq!(fixed.emulators[1].args, vec!["-fastboot", "-fullscreen", "{game_path}"]);
    assert_eq!(fixed.assignments, vec![(Platform::Ps1, "pcsx-redux".to_string())]);

    let (again, changed_again) = repair_config(fixed.clone(), &recipe_ids);
    assert!(!changed_again);
    assert_eq!(again.emulators.len(), 2);
    assert_eq!(again.emulators[1].args, fixed.emulators[1].args);
}

#[test]
fn migration_leaves_customised_duckstation_alone() {
    let mut slots = vec![slot("pcsx-redux", "x.exe", &["-fullscreen", "-nogui", "{game_path}"])];
    migrate_duckstation_args(&mut slots);
    assert_eq!(slots[0].args, vec!["-fullscreen", "-nogui", "{game_path}"]);
    let kept = prune_orphans(vec![slot("a", "", &[]), slot("b", "b.exe", &[])], &vec![]);
    assert_eq!(kept.len(), 1);
    let live = prune_assignments(vec![(Platform::Nes, "a".to_string())], &kept);
    assert!(live.is_empty());
}

#[test]
fn sunshine_creds_command_quotes_for_powershell() {
    assert_eq!(
        sunshine_creds_command("C:\\Program Files\\Sunshine\\sunshine.exe", "abyss", "p'w"),
        "Start-Process -FilePath 'C:\\Program Files\\Sunshine\\sunshine.exe' -ArgumentList @('--creds', 'abyss', 'p''w') -Verb RunAs -Wait"
    );
}

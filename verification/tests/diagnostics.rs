use abyss_singularity::diagnostics::checks::{
    bios_check, bios_found_check, bios_scan_failed, check_mesh, check_moonlight,
    check_ps3_firmware, check_sunshine, controller_defaults_check, emulator_paths_check,
    emulators_check, is_libretro_core, join_comma, retroarch_cores_check, MeshProbe,
    SunshineProbe, AV_EXCLUSION_URL,
};
use abyss_singularity::diagnostics::types::{summarize, CheckResult, CheckStatus};
use abyss_singularity::installer::streaming::detect_existing;

#[test]
fn join_comma_matches_slice_join() {
    let parts = vec!["PS1".to_string(), "PS2".to_string(), "PS3".to_string()];
    let joined: String = join_comma(&parts).into_iter().collect();
    assert_eq!(joined, parts.join(", "));
    assert!(join_comma(&vec![]).is_empty());
}

#[test]
fn summary_counts_each_problem_kind() {
    let rows = vec![
        CheckResult::ok("a", "A", "fine"),
        CheckResult::repaired("b", "B", "fixed"),
        CheckResult::needs_user("c", "C", "do it"),
        CheckResult::needs_user("d", "D", "do it too"),
        CheckResult::failed("e", "E", "broke"),
        CheckResult::skipped("f", "F", "later"),
    ];
    let report = summarize(rows, 12);
    assert_eq!(report.checks.len(), 6);
    assert_eq!(report.elapsed_ms, 12);
    assert_eq!(report.repaired_count, 1);
    assert_eq!(report.needs_user_count, 2);
    assert_eq!(report.failed_count, 1);
}

#[test]
fn rows_carry_paths_and_links() {
    let r = CheckResult::ok("x", "X", "m").with_path("C:/x").with_url("https://x");
    assert_eq!(r.status, CheckStatus::Healthy);
    assert_eq!(r.action_path.as_deref(), Some("C:/x"));
    assert_eq!(r.action_url.as_deref(), Some("https://x"));
}

#[test]
fn emulator_rows_describe_what_happened() {
    let r = emulator_paths_check(Ok(3));
    assert_eq!(r.status, CheckStatus::Repaired);
    assert_eq!(r.message, "Refreshed exe locations for 3 emulator(s) after install repair.");
    assert_eq!(emulator_paths_check(Ok(0)).status, CheckStatus::Healthy);
    assert_eq!(emulator_paths_check(Err("io".into())).message, "installer_repair failed: io");

    assert_eq!(emulators_check(12, 12, 0, 0).message, "All 12 emulator(s) installed.");
    let r = emulators_check(12, 10, 2, 2);
    assert_eq!(r.status, CheckStatus::Repaired);
    assert_eq!(r.message, "Installed 2 missing emulator(s) (10 were already present).");
    let r = emulators_check(12, 9, 3, 1);
    assert_eq!(r.status, CheckStatus::NeedsUser);
    assert_eq!(
        r.message,
        "1 of 3 missing emulator(s) installed; 2 failed (network down or upstream URL changed). Re-run Repair when online."
    );
}

#[test]
fn retroarch_core_counting() {
    assert!(is_libretro_core("snes9x_libretro.dll"));
    assert!(!is_libretro_core("snes9x_libretro.so"));
    assert!(!is_libretro_core("readme.dll"));
    assert_eq!(retroarch_cores_check("C:/ra/cores", true, 80).message, "80 libretro cores installed.");
    let thin = retroarch_cores_check("C:/ra/cores", true, 3);
    assert_eq!(thin.status, CheckStatus::NeedsUser);
    assert_eq!(thin.action_path.as_deref(), Some("C:/ra/cores"));
    assert!(thin.message.starts_with("Only 3 libretro cores found"));
    assert_eq!(retroarch_cores_check("C:/ra/cores", false, 0).status, CheckStatus::NeedsUser);
}

#[test]
fn bios_rows_list_present_and_missing_consoles() {
    let ok = bios_check(true, true, Some(true));
    assert_eq!(ok.status, CheckStatus::Healthy);
    assert_eq!(ok.message, "BIOS in place for: PS1, PS2, PS3");
    let missing = bios_check(true, false, Some(false));
    assert_eq!(missing.status, CheckStatus::NeedsUser);
    assert!(missing.message.starts_with("Missing BIOS for: PS2, PS3. Abyss can't legally ship these"));
    assert_eq!(bios_check(true, true, None).message, "BIOS in place for: PS1, PS2");
    let found = bios_found_check(&vec!["PS2 (PCSX2)".to_string()]);
    assert_eq!(found.message, "Located + installed BIOS for: PS2 (PCSX2)");
    assert_eq!(bios_scan_failed("denied").message, "scan failed: denied");
}

#[test]
fn controller_and_streaming_rows() {
    assert_eq!(controller_defaults_check(&vec![]).status, CheckStatus::Healthy);
    let r = controller_defaults_check(&vec!["pcsx2".into(), "dolphin".into()]);
    assert_eq!(r.message, "Seeded gamepad config for: pcsx2, dolphin");

    let found = detect_existing([false, false], [true, false], [false, false, false]);
    assert_eq!(check_moonlight(&found).status, CheckStatus::Healthy);
    let none = detect_existing([false, false], [false, false], [false, false, false]);
    assert_eq!(check_moonlight(&none).status, CheckStatus::NeedsUser);

    assert_eq!(check_sunshine(SunshineProbe::Running).status, CheckStatus::Healthy);
    assert_eq!(check_sunshine(SunshineProbe::Started).status, CheckStatus::Repaired);
    assert_eq!(check_sunshine(SunshineProbe::Unsupported).status, CheckStatus::Skipped);
    assert_eq!(
        check_sunshine(SunshineProbe::QueryError("sc.exe".into())).message,
        "Couldn't query SunshineService: sc.exe"
    );
    assert_eq!(check_ps3_firmware(Some(true)).status, CheckStatus::Healthy);
    assert_eq!(check_ps3_firmware(Some(false)).status, CheckStatus::NeedsUser);
    assert_eq!(check_ps3_firmware(None).status, CheckStatus::Skipped);
}

#[test]
fn mesh_rows_point_at_the_binary() {
    assert_eq!(check_mesh(MeshProbe::Healthy).status, CheckStatus::Healthy);
    assert_eq!(check_mesh(MeshProbe::Restarted).status, CheckStatus::Repaired);
    let gone = check_mesh(MeshProbe::SpawnFailed {
        error: "not found".into(),
        path: "C:/abyss/abyss-mesh.exe".into(),
        exists: false,
    });
    assert_eq!(gone.status, CheckStatus::NeedsUser);
    assert_eq!(gone.action_path.as_deref(), Some("C:/abyss/abyss-mesh.exe"));
    assert_eq!(gone.action_url.as_deref(), Some(AV_EXCLUSION_URL));
    let failed = check_mesh(MeshProbe::SpawnFailed {
        error: "access denied".into(),
        path: "C:/abyss/abyss-mesh.exe".into(),
        exists: true,
    });
    assert_eq!(failed.status, CheckStatus::Failed);
    assert_eq!(failed.message, "Couldn't start the mesh sidecar: access denied");
    let mute = check_mesh(MeshProbe::Unresponsive { path: "C:/m.exe".into() });
    assert_eq!(mute.status, CheckStatus::NeedsUser);
    assert_eq!(mute.action_path.as_deref(), Some("C:/m.exe"));
    assert!(mute.action_url.is_none());
}

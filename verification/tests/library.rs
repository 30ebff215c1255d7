use abyss_singularity::library::config::{
    empty_scan_report, entries_to_enrich, enrich_report, progress_due, record_lookup, scan_report, EnrichTally,
    LibraryConfig,
    LibrarySnapshot, NoopSink, ProgressSink, ScanProgressEvent, SNAPSHOT_VERSION,
};
use abyss_singularity::library::igdb::{
    build_search_query, throttle_delay_ms, to_metadata, token_is_fresh, upgrade_cover_url,
    IgdbCover, IgdbGame, IgdbMetadata, IgdbPlatformRef,
};
use abyss_singularity::library::platform::{
    build_ext_map, known_extensions, platform_for_extension, refine_ambiguous, Platform,
};
use abyss_singularity::library::scanner::{
    descriptor_presence, entry_id, is_claimed_by_sibling, merge_scan, normalise_for_hash,
    scan_candidate, DescriptorPresence, FileRecord, LibraryEntry,
};
use abyss_singularity::installer::streaming::detect_existing;
use abyss_singularity::text::is_whitespace;
use sha2::Digest;

// ---------- platform map ----------------------------------------------------

#[test]
fn every_known_extension_resolves() {
    for (ext, expected) in known_extensions() {
        assert_eq!(
            platform_for_extension(ext),
            Some(expected),
            "extension {ext:?} should resolve to {expected:?}"
        );
    }
}

#[test]
fn every_platform_has_a_display_name() {
    for p in [
        Platform::Pc, Platform::Nes, Platform::Snes, Platform::N64, Platform::GameCube,
        Platform::Wii, Platform::WiiU, Platform::Switch, Platform::Gameboy,
        Platform::GameboyColor, Platform::GameboyAdvance, Platform::Nds, Platform::Threeds,
        Platform::Ps1, Platform::Ps2, Platform::Ps3, Platform::Psp, Platform::PsVita,
        Platform::Genesis, Platform::MasterSystem, Platform::GameGear, Platform::Saturn,
        Platform::Dreamcast, Platform::Atari2600, Platform::NeoGeo, Platform::Arcade,
        Platform::Other,
    ] {
        let name = p.display_name();
        assert!(!name.is_empty(), "platform {p:?} has empty display_name");
    }
}

#[test]
fn platform_display_names_are_distinct() {
    let all = [
        Platform::Pc, Platform::Nes, Platform::Snes, Platform::N64, Platform::GameCube,
        Platform::Wii, Platform::WiiU, Platform::Switch, Platform::Gameboy,
        Platform::GameboyColor, Platform::GameboyAdvance, Platform::Nds, Platform::Threeds,
        Platform::Ps1, Platform::Ps2, Platform::Ps3, Platform::Psp, Platform::PsVita,
        Platform::Genesis, Platform::MasterSystem, Platform::GameGear, Platform::Saturn,
        Platform::Dreamcast, Platform::Atari2600, Platform::NeoGeo, Platform::Arcade,
        Platform::Other,
    ];
    let names: std::collections::HashSet<&str> = all.iter().map(|p| p.display_name()).collect();
    assert_eq!(names.len(), all.len());
    assert_eq!(Platform::Ps2.display_name(), "PlayStation 2");
    assert_eq!(Platform::Genesis.display_name(), "Mega Drive / Genesis");
}

#[test]
fn refine_takes_the_extension_from_the_path() {
    assert_eq!(refine_ambiguous(Platform::Other, "/g/a.iso", "a.txt", 100), Platform::Ps1);
    assert_eq!(refine_ambiguous(Platform::Other, "/g/a.cue", "a.txt", 0), Platform::Ps1);
    assert_eq!(refine_ambiguous(Platform::Other, "/g/a.GDI", "a", 0), Platform::Dreamcast);
    assert_eq!(refine_ambiguous(Platform::Other, "C:\\roms\\a.toc", "a.toc", 0), Platform::Saturn);
    assert_eq!(refine_ambiguous(Platform::Other, "/g/a.txt", "a.iso", 100), Platform::Other);
    let mib = 1024 * 1024;
    assert_eq!(refine_ambiguous(Platform::Other, "/g/x.img", "x.img", 1_000 * mib), Platform::Psp);
    assert_eq!(refine_ambiguous(Platform::Other, "/g/x.bin", "x.bin", 3_000 * mib), Platform::Ps2);
    assert_eq!(refine_ambiguous(Platform::Other, "/g/x.iso", "x.iso", 5_000 * mib), Platform::Wii);
    assert_eq!(refine_ambiguous(Platform::Other, "/g/x.iso", "x.iso", 9_000 * mib), Platform::Ps3);
}

#[test]
fn unknown_extension_returns_none() {
    assert!(platform_for_extension("txt").is_none());
    assert!(platform_for_extension("docx").is_none());
}

#[test]
fn refine_promotes_ambiguous_iso_via_parent_dir() {
    let p = "/games/PS2/God Hand.iso";
    assert_eq!(refine_ambiguous(Platform::Other, p, "God Hand.iso", 0), Platform::Ps2);

    let p2 = "/games/PlayStation 3/Demon's Souls/PS3_GAME.iso";
    assert_eq!(refine_ambiguous(Platform::Other, p2, "PS3_GAME.iso", 0), Platform::Ps3);

    let p3 = "/games/Mixed Bag/whatever.iso";
    assert_eq!(refine_ambiguous(Platform::Other, p3, "whatever.iso", 0), Platform::Other);
}

#[test]
fn refine_does_not_change_an_already_specific_platform() {
    let p = "/games/PS2/Super Mario 64.n64";
    assert_eq!(refine_ambiguous(Platform::N64, p, "Super Mario 64.n64", 0), Platform::N64);
}

#[test]
fn extension_lookup_is_ascii_case_insensitive_on_lowered_input() {
    assert_eq!(platform_for_extension("sfc"), Some(Platform::Snes));
    assert_eq!(build_ext_map().len(), known_extensions().len());
}

// ---------- name normalisation ---------------------------------------------

#[test]
fn normalise_strips_region_tags() {
    let a = normalise_for_hash("Chrono Trigger (USA) [!]");
    let b = normalise_for_hash("Chrono Trigger");
    let c = normalise_for_hash("CHRONO TRIGGER (Europe)");
    assert_eq!(a, b);
    assert_eq!(a, c);
    assert_eq!(a, "chrono trigger");
}

#[test]
fn normalise_collapses_whitespace() {
    let a = normalise_for_hash("  Final  Fantasy   VII   (USA)  ");
    assert_eq!(a, "final fantasy vii");
}

#[test]
fn normalise_lowercases_beyond_ascii_and_tolerates_unbalanced_brackets() {
    assert_eq!(normalise_for_hash("ÉCOLE Game"), "école game");
    assert_eq!(normalise_for_hash("Game) (Beta"), "game");
}

// ---------- ids, candidates and descriptors --------------------------------

fn expected_id(normalised: &str, size: u64) -> String {
    let mut h = sha2::Sha256::new();
    h.update(normalised.as_bytes());
    h.update(b"|");
    h.update(size.to_le_bytes());
    hex::encode(&h.finalize()[..12])
}

#[test]
fn entry_id_hashes_the_normalised_stem_and_size() {
    let id = entry_id("Chrono Trigger (USA)", 4_194_304);
    assert_eq!(id, expected_id("chrono trigger", 4_194_304));
    assert_eq!(id.len(), 24);
    assert_eq!(id, entry_id("CHRONO TRIGGER [!]", 4_194_304));
    assert_ne!(id, entry_id("Chrono Trigger", 4_194_305));
}

#[test]
fn descriptor_siblings_claim_their_tracks() {
    let names = vec!["Game (Track 01).bin".to_string(), "Game.CUE".to_string()];
    let d = descriptor_presence(&names);
    assert!(d.cue && !d.m3u && !d.gdi && !d.toc && !d.ccd);
    assert!(is_claimed_by_sibling("bin", d));
    assert!(!is_claimed_by_sibling("cue", d));
    let with_m3u = DescriptorPresence { m3u: true, ..DescriptorPresence::default() };
    assert!(is_claimed_by_sibling("cue", with_m3u));
    assert!(is_claimed_by_sibling("iso", with_m3u));
    assert!(!is_claimed_by_sibling("sfc", with_m3u));
}

#[test]
fn scan_candidate_filters_noise_and_keeps_games() {
    let none = DescriptorPresence::default();
    let rom = scan_candidate("/r/Super Mario World (USA).sfc", "Super Mario World (USA).sfc",
        "Super Mario World (USA)", "SFC", 32 * 1024, 7u8, none).expect("rom");
    assert_eq!(rom.platform, Platform::Snes);
    assert_eq!(rom.extension, "sfc");
    assert_eq!(rom.modified, 7u8);
    assert_eq!(rom.id, entry_id("Super Mario World (USA)", 32 * 1024));
    assert!(scan_candidate("/r/tiny.gba", "tiny.gba", "tiny", "gba", 1024, 0u8, none).is_none());
    assert!(scan_candidate("/r/README.txt", "README.txt", "README", "txt", 32 * 1024, 0u8, none).is_none());
    // Descriptors are tiny text files and are kept regardless of size.
    let cue = scan_candidate("/r/Twisted Metal 2.cue", "Twisted Metal 2.cue", "Twisted Metal 2",
        "cue", 1024, 0u8, none).expect("cue");
    assert_eq!(cue.platform, Platform::Ps1);
    let iso = scan_candidate("/r/PS2/God Hand.iso", "God Hand.iso", "God Hand", "iso", 64 * 1024, 0u8, none)
        .expect("iso");
    assert_eq!(iso.platform, Platform::Ps2);
}

fn record(name: &str, stem: &str, size: u64, platform: Platform) -> FileRecord<u32> {
    FileRecord {
        id: entry_id(stem, size),
        path: format!("/r/{name}"),
        file_name: name.to_string(),
        stem: stem.to_string(),
        extension: "iso".to_string(),
        size_bytes: size,
        modified: 1,
        platform,
    }
}

fn halo_metadata() -> IgdbMetadata<f64> {
    IgdbMetadata {
        igdb_id: 12345,
        name: "Halo: Combat Evolved".to_string(),
        summary: None,
        cover_url: None,
        release_year: Some(2001),
        total_rating: None,
        platforms: vec![],
    }
}

#[test]
fn rescan_keeps_existing_enrichment_for_same_id() {
    let first = merge_scan::<u32, IgdbMetadata<f64>>(
        vec![],
        vec![record("Halo (USA).iso", "Halo (USA)", 128 * 1024, Platform::Other)],
    );
    assert_eq!(first.entries.len(), 1);
    assert_eq!(first.games_new, 1);
    let mut enriched = first.entries[0].clone();
    enriched.igdb = Some(halo_metadata());
    enriched.last_enriched = Some(7);
    enriched.cover_local_path = Some("/covers/halo.jpg".to_string());
    let id = enriched.file.id.clone();
    let again = merge_scan(vec![enriched], vec![record("Halo (USA).iso", "Halo (USA)", 128 * 1024, Platform::Other)]);
    assert_eq!(again.games_kept, 1);
    assert_eq!(again.games_new, 0);
    let same = again.entries.iter().find(|e| e.file.id == id).expect("entry by id");
    assert_eq!(same.igdb.as_ref().map(|m| m.igdb_id), Some(12345), "enrichment must not be wiped on a rescan");
    assert_eq!(same.last_enriched, Some(7));
    assert_eq!(same.cover_local_path.as_deref(), Some("/covers/halo.jpg"));
}

fn game(id: u64, name: &str) -> IgdbGame<f64> {
    IgdbGame {
        id,
        name: name.to_string(),
        summary: None,
        first_release_date: None,
        total_rating: None,
        cover: None,
        platforms: vec![],
    }
}

#[test]
fn lookups_record_hits_misses_and_errors() {
    let base = merge_scan::<u32, IgdbMetadata<f64>>(vec![], vec![record("Halo.iso", "Halo", 70_000, Platform::Pc)])
        .entries[0]
        .clone();
    let mut tally = EnrichTally::new();

    // A hit takes the first result and keeps the cached cover.
    let mut e = base.clone();
    e.cover_local_path = Some("/c.jpg".to_string());
    record_lookup(&mut e, &mut tally, Ok(vec![game(1, "Halo"), game(2, "Halo 2")]), 9);
    assert_eq!(e.igdb.as_ref().map(|m| m.igdb_id), Some(1));
    assert_eq!(e.last_enriched, Some(9));
    assert_eq!(e.cover_local_path.as_deref(), Some("/c.jpg"));

    // No hit on a never-enriched entry still records the lookup time.
    let mut e = base.clone();
    record_lookup(&mut e, &mut tally, Ok(vec![]), 10);
    assert!(e.igdb.is_none());
    assert_eq!(e.last_enriched, Some(10));

    // A failed lookup only counts the error.
    let mut e = base.clone();
    record_lookup(&mut e, &mut tally, Err("timeout".to_string()), 11);
    assert!(e.igdb.is_none() && e.last_enriched.is_none());

    assert_eq!((tally.processed, tally.matched, tally.errors), (3, 1, 1));
    // Entries without metadata stay targets; enriched ones do not.
    let mut hit = base.clone();
    hit.igdb = Some(halo_metadata());
    let mut missed = base.clone();
    missed.last_enriched = Some(3);
    assert_eq!(entries_to_enrich(&vec![hit.clone(), missed.clone()], false), vec![1]);
    assert_eq!(entries_to_enrich(&vec![hit, missed], true), vec![0, 1]);
}

#[test]
fn merge_drops_stale_sorts_and_never_downgrades_platform() {
    let old_a = LibraryEntry {
        file: record("Zelda.iso", "Zelda", 70_000, Platform::Ps2),
        igdb: Some(1u8),
        cover_local_path: None,
        last_enriched: None,
    };
    let old_b = LibraryEntry {
        file: record("Gone.iso", "Gone", 70_000, Platform::Ps2),
        igdb: None,
        cover_local_path: None,
        last_enriched: None,
    };
    let obs = vec![
        record("zelda.iso", "Zelda", 70_000, Platform::Other),
        record("Apple.iso", "Apple", 70_000, Platform::Ps1),
    ];
    let out = merge_scan(vec![old_a, old_b], obs);
    assert_eq!(out.games_kept, 1);
    assert_eq!(out.games_new, 1);
    let names: Vec<&str> = out.entries.iter().map(|e| e.file.file_name.as_str()).collect();
    assert_eq!(names, vec!["Apple.iso", "zelda.iso"]);
    assert_eq!(out.entries[1].file.platform, Platform::Ps2);
    assert_eq!(out.entries[1].igdb, Some(1u8));
}

#[test]
fn duplicate_observations_count_as_kept() {
    let r = record("A.iso", "A", 70_000, Platform::Ps1);
    let out = merge_scan::<u32, u8>(vec![], vec![r.clone(), r]);
    assert_eq!(out.games_new, 1);
    assert_eq!(out.games_kept, 1);
    assert_eq!(out.entries.len(), 1);
}

// ---------- configuration and reports --------------------------------------

#[test]
fn library_paths_are_added_once_and_removed() {
    let mut cfg: LibraryConfig<u64> = LibraryConfig::new();
    cfg.add_path("/games".to_string());
    cfg.add_path("/games".to_string());
    cfg.add_path("/roms".to_string());
    assert_eq!(cfg.scan_paths, vec!["/games".to_string(), "/roms".to_string()]);
    cfg.remove_path("/games");
    assert_eq!(cfg.scan_paths, vec!["/roms".to_string()]);
}

#[test]
fn first_launch_installs_run_once_and_only_when_needed() {
    let mut cfg: LibraryConfig<u64> = LibraryConfig::new();
    let all = detect_existing([true, false], [false, true], [false, false, true]);
    let none = detect_existing([false, false], [false, false], [false, false, false]);
    assert!(cfg.should_auto_install_emulators());
    assert!(cfg.should_auto_install_streaming(&none));
    assert!(!cfg.should_auto_install_streaming(&all));
    cfg.emulators_install_attempted_at = Some(1);
    cfg.streaming_apps_attempted_at = Some(2);
    assert!(!cfg.should_auto_install_emulators());
    assert!(!cfg.should_auto_install_streaming(&none));
}

#[test]
fn whitespace_agrees_with_std() {
    for u in 0u32..=0x10FFFF {
        if let Some(c) = char::from_u32(u) {
            assert_eq!(is_whitespace(c), c.is_whitespace(), "U+{u:04X}");
        }
    }
}

#[test]
fn removing_a_path_keeps_the_others_in_order() {
    let mut cfg: LibraryConfig<u64> = LibraryConfig::new();
    cfg.add_path("/a".to_string());
    cfg.add_path("/games".to_string());
    cfg.add_path("/b".to_string());
    cfg.add_path("/c".to_string());
    cfg.remove_path("/games");
    assert_eq!(cfg.scan_paths, vec!["/a".to_string(), "/b".to_string(), "/c".to_string()]);
    cfg.remove_path("/nothing");
    assert_eq!(cfg.scan_paths.len(), 3);
    // `Path` equality ignores a trailing separator.
    cfg.remove_path("/b/");
    assert_eq!(cfg.scan_paths, vec!["/a".to_string(), "/c".to_string()]);
}

#[test]
fn igdb_credentials_are_trimmed_and_required() {
    let mut cfg: LibraryConfig<u64> = LibraryConfig::new();
    assert_eq!(cfg.igdb_credentials().unwrap_err(), "IGDB client_id not set — add it under Settings");
    cfg.set_igdb_credentials("  abc ", "   ");
    assert_eq!(cfg.igdb_client_id.as_deref(), Some("abc"));
    assert_eq!(cfg.igdb_client_secret, None);
    assert_eq!(cfg.igdb_credentials().unwrap_err(), "IGDB client_secret not set — add it under Settings");
    cfg.set_igdb_credentials("abc", "s3cret");
    assert_eq!(cfg.igdb_credentials().unwrap(), ("abc".to_string(), "s3cret".to_string()));
}

#[test]
fn scan_and_enrich_reports_count_what_happened() {
    let out = merge_scan::<u32, u8>(vec![], vec![record("A.iso", "A", 70_000, Platform::Ps1)]);
    let rep = scan_report(vec!["/r".into()], 3, &out, 9);
    assert_eq!((rep.games_found, rep.games_new, rep.games_kept, rep.total_files_seen), (1, 1, 0, 3));
    assert_eq!(empty_scan_report().games_found, 0);
    assert!(progress_due(50) && !progress_due(51));
    let e = enrich_report::<u32, u8>(5, 3, 2, 1, 10, vec![]);
    assert_eq!(e.skipped, 2);
    let e = enrich_report::<u32, u8>(2, 3, 2, 1, 10, vec![]);
    assert_eq!(e.skipped, 0);
    let snap = LibrarySnapshot::new(out.entries);
    assert_eq!(snap.version, SNAPSHOT_VERSION);
    let targets = entries_to_enrich(&snap.entries, false);
    assert_eq!(targets, vec![0]);
    NoopSink.on_progress(ScanProgressEvent { root: "/r".into(), files_seen: 50, games_found: 1, current_file: None });
}

// ---------- IGDB -------------------------------------------------------------

#[test]
fn apicalypse_query_includes_all_required_fields() {
    let q = build_search_query("Halo", 5);
    assert!(q.contains("fields name"));
    assert!(q.contains("summary"));
    assert!(q.contains("cover.url"));
    assert!(q.contains("first_release_date"));
    assert!(q.contains("total_rating"));
    assert!(q.contains("platforms.name"));
    assert!(q.contains("search \"Halo\""));
    assert!(q.contains("limit 5"));
    assert!(q.ends_with(';') || q.contains(";"));
}

#[test]
fn apicalypse_query_escapes_double_quotes() {
    let q = build_search_query(r#"Doom "Eternal""#, 1);
    assert!(q.contains(r#"search "Doom \"Eternal\""; "#));
}

#[test]
fn cover_url_upgrade_adds_https_and_resizes() {
    let raw = "//images.igdb.com/igdb/image/upload/t_thumb/abc123.jpg";
    let up = upgrade_cover_url(raw);
    assert!(up.starts_with("https://"));
    assert!(up.contains("/t_cover_big_2x/"));
    assert!(!up.contains("/t_thumb/"));
}

#[test]
fn cover_url_upgrade_is_idempotent_on_already_https() {
    let raw = "https://images.igdb.com/igdb/image/upload/t_cover_big_2x/abc.jpg";
    let up = upgrade_cover_url(raw);
    assert_eq!(up, raw);
}

#[test]
fn cover_url_without_scheme_gets_https() {
    assert_eq!(upgrade_cover_url("images.igdb.com/x.jpg"), "https://images.igdb.com/x.jpg");
}

#[test]
fn igdb_game_to_metadata_maps_fields_correctly() {
    let g = IgdbGame {
        id: 1942,
        name: "The Witcher 3: Wild Hunt".into(),
        summary: Some("RPG".into()),
        first_release_date: Some(1431993600),
        total_rating: Some(94.5),
        cover: Some(IgdbCover {
            url: Some("//images.igdb.com/igdb/image/upload/t_thumb/co.jpg".into()),
        }),
        platforms: vec![],
    };
    let m = to_metadata(g);
    assert_eq!(m.igdb_id, 1942);
    assert_eq!(m.release_year, Some(2015));
    assert!(m.cover_url.as_deref().unwrap().contains("/t_cover_big_2x/"));
    assert_eq!(m.total_rating, Some(94.5));
}

#[test]
fn metadata_keeps_only_named_platforms() {
    let g: IgdbGame<f64> = IgdbGame {
        id: 1,
        name: "x".into(),
        summary: None,
        first_release_date: None,
        total_rating: None,
        cover: None,
        platforms: vec![
            IgdbPlatformRef { name: Some("PC".into()) },
            IgdbPlatformRef { name: None },
            IgdbPlatformRef { name: Some("Xbox".into()) },
        ],
    };
    let m = to_metadata(g);
    assert_eq!(m.platforms, vec!["PC".to_string(), "Xbox".to_string()]);
    assert_eq!(m.release_year, None);
    assert_eq!(m.cover_url, None);
}

#[test]
fn throttle_spaces_requests_and_tokens_expire_early() {
    assert_eq!(throttle_delay_ms(None), 0);
    assert_eq!(throttle_delay_ms(Some(100)), 160);
    assert_eq!(throttle_delay_ms(Some(300)), 0);
    assert!(token_is_fresh(Some(200_000), 100_000));
    assert!(!token_is_fresh(Some(150_000), 100_000));
    assert!(!token_is_fresh(None, 0));
}

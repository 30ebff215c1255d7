use abyss_singularity::chat::state::{ChatState, PeerUpdate};
use abyss_singularity::chat::types::ChatProtocol;
use abyss_singularity::library::platform::Platform;
use abyss_singularity::library::scanner::{FileRecord, LibraryEntry};
use abyss_singularity::lobby::commands::{
    close_room, find_room_entry, host_room, leave_room, netplay_flag, request_join, start_game,
};
use abyss_singularity::lobby::handlers::{
    on_advertise, on_close_or_leave, on_join_accepted, on_join_request, on_start_game,
    parse_platform, platform_to_wire,
};
use abyss_singularity::lobby::state::LobbyState;
use abyss_singularity::lobby::types::RoomRole;

fn chat_with(connected: &[&str], offline: &[&str]) -> ChatState {
    let mut chat = ChatState::new();
    for addr in connected {
        let mut u = PeerUpdate::none();
        u.connected = Some(true);
        u.display_name = Some(Some(format!("name-{addr}")));
        chat.upsert_peer(addr, u);
    }
    for addr in offline {
        chat.upsert_peer(addr, PeerUpdate::none());
    }
    chat
}

#[test]
fn platform_wire_names_round_trip() {
    for p in [Platform::Pc, Platform::GameboyAdvance, Platform::Ps2, Platform::WiiU, Platform::Other] {
        assert_eq!(parse_platform(&platform_to_wire(p)), Some(p));
    }
    assert_eq!(platform_to_wire(Platform::GameboyAdvance), "gameboy_advance");
    assert_eq!(parse_platform("mars"), None);
}

#[test]
fn hosting_advertises_to_connected_peers() {
    let chat = chat_with(&["a"], &["b"]);
    let mut lobby = LobbyState::new();
    let (snap, sends) = host_room(&mut lobby, &chat, Platform::Snes, "Chrono Trigger".into(), 7);
    assert_eq!(snap.role, Some(RoomRole::Host));
    assert_eq!(snap.host_addr.as_deref(), Some("self"));
    assert_eq!(snap.host_name.as_deref(), Some("Abyss user"));
    assert_eq!(sends.len(), 1);
    assert_eq!(sends[0].0, "a");
    match &sends[0].1 {
        ChatProtocol::LobbyAdvertise { platform, game_name, members, sent_at_ms, .. } => {
            assert_eq!(platform, "snes");
            assert_eq!(game_name, "Chrono Trigger");
            assert!(members.is_empty());
            assert_eq!(*sent_at_ms, 7);
        }
        other => panic!("expected an advertise frame, got {other:?}"),
    }
    assert!(lobby.is_host());
}

#[test]
fn join_request_adds_member_once_and_start_reaches_it() {
    let chat = chat_with(&["a"], &[]);
    let mut lobby = LobbyState::new();
    host_room(&mut lobby, &chat, Platform::Snes, "Chrono Trigger".into(), 1);
    let out = on_join_request(&mut lobby, &chat, "a", "Alice".into(), 2);
    assert!(out.room_changed);
    assert_eq!(
        out.sends[0],
        (
            "a".to_string(),
            ChatProtocol::LobbyJoinAccepted {
                platform: "snes".into(),
                game_name: "Chrono Trigger".into(),
                sent_at_ms: 2
            }
        )
    );
    let again = on_join_request(&mut lobby, &chat, "a", "Alice".into(), 3);
    assert!(!again.room_changed);
    assert!(again.sends.is_empty());
    assert_eq!(lobby.snapshot().members.len(), 1);

    assert_eq!(
        start_game(&lobby, &chat, "  ", 4).err().as_deref(),
        Some("host IP is empty — pick your tailnet address in the Lobby panel")
    );
    let plan = start_game(&lobby, &chat, "100.64.0.1", 4).unwrap();
    assert_eq!(plan.platform, Platform::Snes);
    assert_eq!(plan.sends.len(), 1);
    assert_eq!(
        plan.sends[0].1,
        ChatProtocol::LobbyStartGame {
            platform: "snes".into(),
            game_name: "Chrono Trigger".into(),
            host_addr: "100.64.0.1".into(),
            sent_at_ms: 4
        }
    );
}

#[test]
fn only_the_host_can_start() {
    let chat = chat_with(&[], &[]);
    let lobby = LobbyState::new();
    assert_eq!(
        start_game(&lobby, &chat, "100.64.0.1", 1).err().as_deref(),
        Some("only the host can start the game")
    );
}

#[test]
fn member_flow_joins_and_leaves() {
    let chat = chat_with(&["h"], &[]);
    assert_eq!(
        request_join(&chat, "x", 1).unwrap_err(),
        "not connected to x via chat yet — click 'link' in Friends first"
    );
    let (to, frame) = request_join(&chat, "h", 1).unwrap();
    assert_eq!(to, "h");
    assert_eq!(
        frame,
        ChatProtocol::LobbyJoinRequest { display_name: "Abyss user".into(), sent_at_ms: 1 }
    );

    let mut lobby = LobbyState::new();
    assert!(!on_join_accepted(&mut lobby, &chat, "h", "mars", "X".into()));
    assert!(lobby.snapshot().role.is_none());
    assert!(on_join_accepted(&mut lobby, &chat, "h", "ps2", "God Hand".into()));
    let snap = lobby.snapshot();
    assert_eq!(snap.role, Some(RoomRole::Member));
    assert_eq!(snap.host_addr.as_deref(), Some("h"));
    assert_eq!(snap.host_name.as_deref(), Some("name-h"));
    assert_eq!(snap.platform, Some(Platform::Ps2));

    let (after, sends) = leave_room(&mut lobby, &chat, 5);
    assert!(after.role.is_none());
    assert_eq!(sends, vec![("h".to_string(), ChatProtocol::LobbyLeave { sent_at_ms: 5 })]);
}

#[test]
fn close_from_our_host_clears_the_room() {
    let chat = chat_with(&["h"], &[]);
    let mut lobby = LobbyState::new();
    on_join_accepted(&mut lobby, &chat, "h", "nes", "Zelda".into());
    let stranger = on_close_or_leave(&mut lobby, &chat, "someone", 1);
    assert!(!stranger.room_changed);
    assert_eq!(lobby.snapshot().role, Some(RoomRole::Member));
    let out = on_close_or_leave(&mut lobby, &chat, "h", 2);
    assert!(out.room_changed);
    assert!(lobby.snapshot().role.is_none());
}

#[test]
fn host_drops_leaving_member_and_close_tells_everyone() {
    let chat = chat_with(&["a", "b"], &[]);
    let mut lobby = LobbyState::new();
    host_room(&mut lobby, &chat, Platform::N64, "Mario Kart 64".into(), 1);
    on_join_request(&mut lobby, &chat, "a", "A".into(), 2);
    let out = on_close_or_leave(&mut lobby, &chat, "a", 3);
    assert!(out.room_changed);
    assert!(lobby.snapshot().members.is_empty());
    let (snap, sends) = close_room(&mut lobby, &chat, 4);
    assert!(snap.role.is_none());
    assert_eq!(sends.len(), 2);
    assert!(sends.iter().all(|(_, f)| *f == ChatProtocol::LobbyClose { sent_at_ms: 4 }));
}

#[test]
fn incoming_frames_with_unknown_platforms_are_ignored() {
    let inv = on_advertise("100.64.0.9", "Host".into(), "snes", "Zelda".into(), vec!["a".into()])
        .unwrap();
    assert_eq!(inv.host_addr, "100.64.0.9");
    assert_eq!(inv.platform, Platform::Snes);
    assert!(on_advertise("x", "H".into(), "mars", "G".into(), vec![]).is_none());
    let req = on_start_game("100.64.0.1".into(), "ps1", "FF7".into()).unwrap();
    assert_eq!(req.platform, Platform::Ps1);
    assert_eq!(req.join_addr, "100.64.0.1");
    assert!(on_start_game("h".into(), "", "G".into()).is_none());
}

#[test]
fn netplay_flags() {
    assert_eq!(netplay_flag(Some("100.64.0.1")), "--connect=100.64.0.1");
    assert_eq!(netplay_flag(None), "--host");
}

fn entry(stem: &str, platform: Platform) -> LibraryEntry<u8, u8> {
    LibraryEntry {
        file: FileRecord {
            id: stem.to_string(),
            path: format!("/g/{stem}.iso"),
            file_name: format!("{stem}.iso"),
            stem: stem.to_string(),
            extension: "iso".to_string(),
            size_bytes: 1,
            modified: 0,
            platform,
        },
        igdb: None,
        cover_local_path: None,
        last_enriched: None,
    }
}

#[test]
fn room_game_is_found_by_platform_and_normalised_name() {
    let entries = vec![
        entry("Chrono Trigger (USA)", Platform::Nes),
        entry("Chrono Trigger (USA) [!]", Platform::Snes),
    ];
    assert_eq!(find_room_entry(&entries, Platform::Snes, "chrono trigger"), Some(1));
    assert_eq!(find_room_entry(&entries, Platform::Ps1, "Chrono Trigger"), None);
}

use abyss_singularity::installer::emulators::EmulatorEntry;
use abyss_singularity::lobby::launch::{netplay_args, netplay_emulator, platform_debug_name, room_entry_or_error};

fn emu(id: &str, name: &str, exe: &str) -> EmulatorEntry {
    EmulatorEntry {
        id: id.into(),
        name: name.into(),
        exe: exe.into(),
        args: vec!["{game_path}".into()],
        working_dir: None,
        env: vec![],
        platforms: vec![],
    }
}

#[test]
fn netplay_needs_an_installed_retroarch_assignment() {
    let slots = vec![emu("pcsx2", "PCSX2", "C:/pcsx2.exe"), emu("retroarch", "RetroArch", "C:/ra.exe")];
    let assigned = vec![(Platform::Ps2, "pcsx2".to_string()), (Platform::Snes, "retroarch".to_string())];
    assert_eq!(netplay_emulator(&assigned, &slots, Platform::Snes, "Zelda"), Ok(1));
    assert_eq!(
        netplay_emulator(&assigned, &slots, Platform::Ps2, "God Hand").unwrap_err(),
        "Netplay in Abyss is currently RetroArch-only. The host picked 'God Hand' which is assigned to PCSX2. Switch its emulator to RetroArch under Settings → Emulators to play this together."
    );
    assert_eq!(
        netplay_emulator(&assigned, &slots, Platform::N64, "Mario").unwrap_err(),
        "no emulator assigned to N64 — open Settings → Emulators to pick one"
    );
    let dangling = vec![(Platform::Nes, "ghost".to_string())];
    assert_eq!(
        netplay_emulator(&dangling, &slots, Platform::Nes, "x").unwrap_err(),
        "emulator ghost missing from config"
    );
    let bare = vec![emu("retroarch", "RetroArch", "")];
    assert_eq!(
        netplay_emulator(&assigned, &bare, Platform::Snes, "x").unwrap_err(),
        "emulator RetroArch has no exe path set"
    );
}

#[test]
fn netplay_command_line_wraps_the_expanded_args() {
    let args = netplay_args(
        vec!["C:/g/zelda.sfc".into()],
        Some("C:/ra/cores/snes9x_libretro.dll".into()),
        Some("100.64.0.1"),
    );
    assert_eq!(
        args,
        vec!["-L", "C:/ra/cores/snes9x_libretro.dll", "C:/g/zelda.sfc", "--connect=100.64.0.1"]
    );
    assert_eq!(netplay_args(vec![], None, None), vec!["--host"]);
    assert_eq!(platform_debug_name(Platform::GameboyAdvance), "GameboyAdvance");
}

#[test]
fn missing_local_copy_is_explained() {
    let entries: Vec<LibraryEntry<u8, u8>> = vec![entry("Zelda", Platform::Snes)];
    assert_eq!(room_entry_or_error(&entries, Platform::Snes, "zelda"), Ok(0));
    assert_eq!(
        room_entry_or_error(&entries, Platform::Ps2, "God Hand").unwrap_err(),
        "you don't have a local copy of 'God Hand' for Ps2. Ask the host to send it via the Friends tab, then try again."
    );
}

#[test]
fn a_room_exists_exactly_while_a_role_is_set() {
    let mut lobby = LobbyState::new();
    assert!(lobby.current_room().is_none() && lobby.snapshot().role.is_none());
    lobby.become_host(Platform::Ps2, "God Hand".to_string(), "me".to_string());
    lobby.add_member("100.64.0.2", Some("Ann".to_string()));
    let (platform, game, members) = lobby.current_room().unwrap();
    assert_eq!((platform, game.as_str(), members.len()), (Platform::Ps2, "God Hand", 1));
    assert_eq!(lobby.snapshot().role, Some(RoomRole::Host));
    lobby.remove_member("100.64.0.2");
    assert!(lobby.current_room().is_some());
    lobby.clear();
    assert!(lobby.current_room().is_none() && lobby.snapshot().role.is_none());
    lobby.become_member("h".to_string(), None, Platform::Ps1, "X".to_string());
    assert!(lobby.current_room().is_some() && lobby.snapshot().role == Some(RoomRole::Member));
}

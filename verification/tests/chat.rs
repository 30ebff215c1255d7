use abyss_singularity::chat::commands::{
    announce_local_activity, auto_connect_targets, chat_status, offline_preflight, prepare_send,
};
use abyss_singularity::chat::protocol::{encode_frame, frame_length, MAX_FRAME_BYTES};
use abyss_singularity::chat::session::{handle_frame, short_id};
use abyss_singularity::chat::state::{ChatState, PeerUpdate};
use abyss_singularity::chat::types::{
    ChatConfig, ChatHistoryEntry, ChatProtocol, Direction, PresenceStatus,
};
use abyss_singularity::mesh::types::MeshPeer;

fn entry(id: &str, peer: &str, direction: Direction, body: &str) -> ChatHistoryEntry {
    ChatHistoryEntry {
        id: id.to_string(),
        peer_addr: peer.to_string(),
        direction,
        body: body.to_string(),
        at_ms: 1_700_000_000_000,
    }
}

// ---------- types ------------------------------------------------------------

#[test]
fn default_chat_config_listens_on_47992_and_is_disabled() {
    let cfg = ChatConfig::default();
    assert_eq!(cfg.listen_port, 47992);
    assert!(!cfg.enabled, "chat must default to OFF so we don't open a port silently");
    assert!(cfg.display_name.is_none());
}

// ---------- framing ------------------------------------------------------------

#[test]
fn frame_header_round_trips_the_body_length() {
    let body = br#"{"kind":"hello","name":"alice","app_version":"0.1.0","sent_at_ms":42}"#;
    let framed = encode_frame(body).unwrap();
    assert_eq!(framed.len(), body.len() + 4);
    assert_eq!(&framed[4..], &body[..]);
    let header = [framed[0], framed[1], framed[2], framed[3]];
    assert_eq!(frame_length(header), Ok(body.len()));
}

#[test]
fn frame_header_is_big_endian() {
    let body = vec![7u8; 300];
    let framed = encode_frame(&body).unwrap();
    assert_eq!(&framed[..4], &[0, 0, 1, 44]);
}

#[test]
fn frame_length_rejects_oversized_prefix() {
    let big = (MAX_FRAME_BYTES as u32) + 1;
    let err = frame_length(big.to_be_bytes()).expect_err("must reject");
    assert!(err.contains("too large"));
    assert_eq!(err, "frame too large: 65537 bytes (max 65536)");
}

#[test]
fn frame_length_rejects_empty_frame() {
    assert_eq!(frame_length([0, 0, 0, 0]), Err("empty frame".to_string()));
    assert_eq!(frame_length([0, 1, 0, 0]), Ok(65536));
}

#[test]
fn encode_frame_refuses_oversized_payload() {
    let body = vec![0u8; MAX_FRAME_BYTES + 1];
    assert_eq!(encode_frame(&body), Err("frame too large: 65537 bytes".to_string()));
    assert!(encode_frame(&vec![0u8; MAX_FRAME_BYTES]).is_ok());
}

// ---------- state: history + peers ---------------------------------------------

#[test]
fn history_caps_at_thousand_entries() {
    let mut state = ChatState::default();
    for i in 0..1_500 {
        state.append_history(entry(
            &i.to_string(),
            "100.64.0.5",
            Direction::Outbound,
            &format!("msg {i}"),
        ));
    }
    let all = state.history_for(None);
    assert_eq!(all.len(), 1_000);
    assert_eq!(all.first().unwrap().body, "msg 500"); // oldest 500 evicted
    assert_eq!(all.last().unwrap().body, "msg 1499");
}

#[test]
fn upsert_peer_then_list_returns_the_snapshot_we_wrote() {
    let mut state = ChatState::default();
    let mut update = PeerUpdate::none();
    update.display_name = Some(Some("buddy".into()));
    update.presence = Some(Some(PresenceStatus::Playing));
    update.activity = Some(Some("Halo".into()));
    state.upsert_peer("100.64.0.5", update);
    let peers = state.list_peers();
    assert_eq!(peers.len(), 1);
    assert_eq!(peers[0].addr, "100.64.0.5");
    assert_eq!(peers[0].display_name.as_deref(), Some("buddy"));
    assert!(!peers[0].connected, "no live tx yet");
    assert_eq!(peers[0].presence, Some(PresenceStatus::Playing));
}

#[test]
fn history_for_filters_by_peer() {
    let mut state = ChatState::default();
    for (peer, body) in [("a", "1"), ("b", "2"), ("a", "3")] {
        state.append_history(entry(body, peer, Direction::Inbound, body));
    }
    let a_only = state.history_for(Some("a"));
    assert_eq!(a_only.len(), 2);
    assert_eq!(a_only[0].body, "1");
    assert_eq!(a_only[1].body, "3");
}

#[test]
fn upsert_twice_keeps_one_slot_and_merges_fields() {
    let mut state = ChatState::new();
    let mut first = PeerUpdate::none();
    first.display_name = Some(Some("buddy".into()));
    state.upsert_peer("100.64.0.5", first);
    let mut second = PeerUpdate::none();
    second.connected = Some(true);
    state.upsert_peer("100.64.0.5", second);
    let peers = state.list_peers();
    assert_eq!(peers.len(), 1);
    assert_eq!(peers[0].display_name.as_deref(), Some("buddy"));
    assert!(state.peer_connected("100.64.0.5"));
    state.clear_peer_sender("100.64.0.5");
    assert!(!state.peer_connected("100.64.0.5"));
    assert!(!state.peer_connected("100.64.0.9"));
}

#[test]
fn self_name_defaults_and_presence_round_trips() {
    let mut state = ChatState::new();
    assert_eq!(state.self_name(), "Abyss user");
    state.set_self_name(Some("ada".into()));
    assert_eq!(state.self_name(), "ada");
    state.set_presence(PresenceStatus::Away, Some("brb".into()));
    assert_eq!(state.presence(), (PresenceStatus::Away, Some("brb".to_string())));
    let status = chat_status(&state, true);
    assert!(status.running);
    assert_eq!(status.self_name, "ada");
    assert_eq!(status.presence, PresenceStatus::Away);
    assert_eq!(status.activity.as_deref(), Some("brb"));
}

#[test]
fn disconnect_all_drops_every_live_link() {
    let mut state = ChatState::new();
    for addr in ["a", "b"] {
        let mut u = PeerUpdate::none();
        u.connected = Some(true);
        state.upsert_peer(addr, u);
    }
    state.disconnect_all();
    assert!(state.list_peers().iter().all(|p| !p.connected));
    assert_eq!(state.list_peers().len(), 2);
}

// ---------- session --------------------------------------------------------------

#[test]
fn hello_is_answered_with_our_hello_and_presence() {
    let mut state = ChatState::new();
    state.set_self_name(Some("bob".into()));
    let out = handle_frame(
        &mut state,
        "100.64.0.7",
        ChatProtocol::Hello { name: "alice".into(), app_version: "0.1.0".into(), sent_at_ms: 1 },
        5_000,
        "0.2.0",
    );
    assert!(out.peers_changed);
    assert_eq!(out.replies.len(), 2);
    assert_eq!(
        out.replies[0],
        ChatProtocol::Hello { name: "bob".into(), app_version: "0.2.0".into(), sent_at_ms: 5_000 }
    );
    assert_eq!(
        out.replies[1],
        ChatProtocol::Presence { status: PresenceStatus::Idle, activity: None, sent_at_ms: 5_000 }
    );
    let peers = state.list_peers();
    assert_eq!(peers[0].display_name.as_deref(), Some("alice"));
    assert_eq!(peers[0].last_seen_ms, Some(5_000));
}

#[test]
fn chat_frame_is_stored_as_inbound_and_ping_gets_pong() {
    let mut state = ChatState::new();
    let out = handle_frame(
        &mut state,
        "100.64.0.7",
        ChatProtocol::Chat { id: "m1".into(), body: "hi".into(), sent_at_ms: 3 },
        9,
        "0.1.0",
    );
    let msg = out.message.unwrap();
    assert_eq!(msg.body, "hi");
    assert_eq!(msg.direction, Direction::Inbound);
    assert_eq!(msg.at_ms, 9);
    assert_eq!(state.history_for(Some("100.64.0.7")).len(), 1);

    let out = handle_frame(&mut state, "100.64.0.7", ChatProtocol::Ping { sent_at_ms: 77 }, 10, "x");
    assert_eq!(out.replies, vec![ChatProtocol::Pong { sent_at_ms: 77 }]);

    let other = ChatProtocol::LobbyLeave { sent_at_ms: 1 };
    let out = handle_frame(&mut state, "100.64.0.7", other.clone(), 11, "x");
    assert_eq!(out.dispatch, Some(other));
    assert!(out.replies.is_empty());
}

#[test]
fn short_id_is_hex_time_and_counter() {
    assert_eq!(short_id(255, 16), "ff-10");
    assert_eq!(short_id(0, 0), "0-0");
}

// ---------- commands ------------------------------------------------------------

#[test]
fn prepare_send_needs_a_live_connection() {
    let mut state = ChatState::new();
    assert_eq!(
        prepare_send(&mut state, "100.64.0.5", "hello", "id1", 1).unwrap_err(),
        "no live connection to 100.64.0.5"
    );
    let mut u = PeerUpdate::none();
    u.connected = Some(true);
    state.upsert_peer("100.64.0.5", u);
    let (frame, stored) = prepare_send(&mut state, "100.64.0.5", "hello", "id1", 1).unwrap();
    assert_eq!(
        frame,
        ChatProtocol::Chat { id: "id1".into(), body: "hello".into(), sent_at_ms: 1 }
    );
    assert_eq!(stored.direction, Direction::Outbound);
    assert_eq!(state.history_for(None).len(), 1);
}

#[test]
fn local_activity_becomes_presence_for_connected_peers() {
    let mut state = ChatState::new();
    let mut u = PeerUpdate::none();
    u.connected = Some(true);
    state.upsert_peer("a", u);
    state.upsert_peer("b", PeerUpdate::none());
    let frames = announce_local_activity(&mut state, Some("Halo".into()), 42);
    assert_eq!(frames.len(), 1);
    assert_eq!(frames[0].0, "a");
    assert_eq!(
        frames[0].1,
        ChatProtocol::Presence {
            status: PresenceStatus::Playing,
            activity: Some("Halo".into()),
            sent_at_ms: 42
        }
    );
    announce_local_activity(&mut state, None, 43);
    assert_eq!(state.presence(), (PresenceStatus::Idle, None));
}

fn mesh_peer(host: &str, addr: &str, online: bool) -> MeshPeer {
    MeshPeer {
        host_name: host.to_string(),
        dns_name: format!("{host}.tail.ts.net"),
        addrs: vec![addr.to_string()],
        online,
        os: "linux".to_string(),
    }
}

#[test]
fn offline_peer_is_refused_before_dialling() {
    let peers = vec![mesh_peer("buddy", "100.64.0.5", false), mesh_peer("pal", "100.64.0.6", true)];
    assert_eq!(
        offline_preflight(&peers, "100.64.0.5"),
        Some("buddy is offline — they need to open Abyss to receive chats.".to_string())
    );
    assert_eq!(offline_preflight(&peers, "pal.tail.ts.net"), None);
    assert_eq!(offline_preflight(&peers, "100.99.0.1"), None);
    assert_eq!(auto_connect_targets(&peers), vec!["100.64.0.6".to_string()]);
}

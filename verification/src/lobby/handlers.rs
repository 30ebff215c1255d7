//! Handling of the lobby frames that arrive over the chat channel, and the
//! frames the lobby sends. Each handler updates the room and returns the
//! frames to send (peer address and frame); the host application writes
//! them, emits the room state and launches games.

use vstd::prelude::*;

use crate::chat::commands::connected_addrs;
use crate::chat::state::{peer_index, ChatState};
use crate::chat::types::{snapshot_view as peer_snapshot_view, ChatProtocol, PeerSnapshot, PeerView};
use crate::library::platform::Platform;
use crate::lobby::state::{added, without, LobbyState, MemberView};
use crate::lobby::types::{RoomMember, RoomRole, RoomView};
use crate::text::{copy_string, opt_chars, owned, str_eq};

verus! {

pub open spec fn platform_from_wire(s: Seq<char>) -> Option<Platform> {
    if s == "pc"@ {
        Some(Platform::Pc)
    } else if s == "nes"@ {
        Some(Platform::Nes)
    } else if s == "snes"@ {
        Some(Platform::Snes)
    } else if s == "n64"@ {
        Some(Platform::N64)
    } else if s == "game_cube"@ {
        Some(Platform::GameCube)
    } else if s == "wii"@ {
        Some(Platform::Wii)
    } else if s == "wii_u"@ {
        Some(Platform::WiiU)
    } else if s == "switch"@ {
        Some(Platform::Switch)
    } else if s == "gameboy"@ {
        Some(Platform::Gameboy)
    } else if s == "gameboy_color"@ {
        Some(Platform::GameboyColor)
    } else if s == "gameboy_advance"@ {
        Some(Platform::GameboyAdvance)
    } else if s == "nds"@ {
        Some(Platform::Nds)
    } else if s == "threeds"@ {
        Some(Platform::Threeds)
    } else if s == "ps1"@ {
        Some(Platform::Ps1)
    } else if s == "ps2"@ {
        Some(Platform::Ps2)
    } else if s == "ps3"@ {
        Some(Platform::Ps3)
    } else if s == "psp"@ {
        Some(Platform::Psp)
    } else if s == "ps_vita"@ {
        Some(Platform::PsVita)
    } else if s == "genesis"@ {
        Some(Platform::Genesis)
    } else if s == "master_system"@ {
        Some(Platform::MasterSystem)
    } else if s == "game_gear"@ {
        Some(Platform::GameGear)
    } else if s == "saturn"@ {
        Some(Platform::Saturn)
    } else if s == "dreamcast"@ {
        Some(Platform::Dreamcast)
    } else if s == "atari2600"@ {
        Some(Platform::Atari2600)
    } else if s == "neo_geo"@ {
        Some(Platform::NeoGeo)
    } else if s == "arcade"@ {
        Some(Platform::Arcade)
    } else if s == "other"@ {
        Some(Platform::Other)
    } else {
        None
    }
}

pub fn parse_platform(s: &str) -> (r: Option<Platform>)
    ensures
        r == platform_from_wire(s@),
{
    if str_eq(s, "pc") {
        Some(Platform::Pc)
    } else if str_eq(s, "nes") {
        Some(Platform::Nes)
    } else if str_eq(s, "snes") {
        Some(Platform::Snes)
    } else if str_eq(s, "n64") {
        Some(Platform::N64)
    } else if str_eq(s, "game_cube") {
        Some(Platform::GameCube)
    } else if str_eq(s, "wii") {
        Some(Platform::Wii)
    } else if str_eq(s, "wii_u") {
        Some(Platform::WiiU)
    } else if str_eq(s, "switch") {
        Some(Platform::Switch)
    } else if str_eq(s, "gameboy") {
        Some(Platform::Gameboy)
    } else if str_eq(s, "gameboy_color") {
        Some(Platform::GameboyColor)
    } else if str_eq(s, "gameboy_advance") {
        Some(Platform::GameboyAdvance)
    } else if str_eq(s, "nds") {
        Some(Platform::Nds)
    } else if str_eq(s, "threeds") {
        Some(Platform::Threeds)
    } else if str_eq(s, "ps1") {
        Some(Platform::Ps1)
    } else if str_eq(s, "ps2") {
        Some(Platform::Ps2)
    } else if str_eq(s, "ps3") {
        Some(Platform::Ps3)
    } else if str_eq(s, "psp") {
        Some(Platform::Psp)
    } else if str_eq(s, "ps_vita") {
        Some(Platform::PsVita)
    } else if str_eq(s, "genesis") {
        Some(Platform::Genesis)
    } else if str_eq(s, "master_system") {
        Some(Platform::MasterSystem)
    } else if str_eq(s, "game_gear") {
        Some(Platform::GameGear)
    } else if str_eq(s, "saturn") {
        Some(Platform::Saturn)
    } else if str_eq(s, "dreamcast") {
        Some(Platform::Dreamcast)
    } else if str_eq(s, "atari2600") {
        Some(Platform::Atari2600)
    } else if str_eq(s, "neo_geo") {
        Some(Platform::NeoGeo)
    } else if str_eq(s, "arcade") {
        Some(Platform::Arcade)
    } else if str_eq(s, "other") {
        Some(Platform::Other)
    } else {
        None
    }
}

/// Every platform's wire name reads back as that platform.
#[verifier::rlimit(60)]
pub proof fn lemma_wire_round_trip(p: Platform)
    ensures
        platform_from_wire(p.spec_wire_name()) == Some(p),
{
    reveal_strlit("pc");
    reveal_strlit("nes");
    reveal_strlit("snes");
    reveal_strlit("n64");
    reveal_strlit("game_cube");
    reveal_strlit("wii");
    reveal_strlit("wii_u");
    reveal_strlit("switch");
    reveal_strlit("gameboy");
    reveal_strlit("gameboy_color");
    reveal_strlit("gameboy_advance");
    reveal_strlit("nds");
    reveal_strlit("threeds");
    reveal_strlit("ps1");
    reveal_strlit("ps2");
    reveal_strlit("ps3");
    reveal_strlit("psp");
    reveal_strlit("ps_vita");
    reveal_strlit("genesis");
    reveal_strlit("master_system");
    reveal_strlit("game_gear");
    reveal_strlit("saturn");
    reveal_strlit("dreamcast");
    reveal_strlit("atari2600");
    reveal_strlit("neo_geo");
    reveal_strlit("arcade");
    reveal_strlit("other");
    assert("nes"@[1] != "n64"@[1]);
    assert("nes"@[0] != "wii"@[0]);
    assert("nes"@[1] != "nds"@[1]);
    assert("nes"@[0] != "ps1"@[0]);
    assert("nes"@[0] != "ps2"@[0]);
    assert("nes"@[0] != "ps3"@[0]);
    assert("nes"@[0] != "psp"@[0]);
    assert("n64"@[0] != "wii"@[0]);
    assert("n64"@[1] != "nds"@[1]);
    assert("n64"@[0] != "ps1"@[0]);
    assert("n64"@[0] != "ps2"@[0]);
    assert("n64"@[0] != "ps3"@[0]);
    assert("n64"@[0] != "psp"@[0]);
    assert("game_cube"@[5] != "game_gear"@[5]);
    assert("game_cube"@[0] != "dreamcast"@[0]);
    assert("game_cube"@[0] != "atari2600"@[0]);
    assert("wii"@[0] != "nds"@[0]);
    assert("wii"@[0] != "ps1"@[0]);
    assert("wii"@[0] != "ps2"@[0]);
    assert("wii"@[0] != "ps3"@[0]);
    assert("wii"@[0] != "psp"@[0]);
    assert("wii_u"@[0] != "other"@[0]);
    assert("switch"@[1] != "saturn"@[1]);
    assert("switch"@[0] != "arcade"@[0]);
    assert("gameboy"@[0] != "threeds"@[0]);
    assert("gameboy"@[0] != "ps_vita"@[0]);
    assert("gameboy"@[1] != "genesis"@[1]);
    assert("gameboy"@[0] != "neo_geo"@[0]);
    assert("gameboy_color"@[0] != "master_system"@[0]);
    assert("nds"@[0] != "ps1"@[0]);
    assert("nds"@[0] != "ps2"@[0]);
    assert("nds"@[0] != "ps3"@[0]);
    assert("nds"@[0] != "psp"@[0]);
    assert("threeds"@[0] != "ps_vita"@[0]);
    assert("threeds"@[0] != "genesis"@[0]);
    assert("threeds"@[0] != "neo_geo"@[0]);
    assert("ps1"@[2] != "ps2"@[2]);
    assert("ps1"@[2] != "ps3"@[2]);
    assert("ps1"@[2] != "psp"@[2]);
    assert("ps2"@[2] != "ps3"@[2]);
    assert("ps2"@[2] != "psp"@[2]);
    assert("ps3"@[2] != "psp"@[2]);
    assert("ps_vita"@[0] != "genesis"@[0]);
    assert("ps_vita"@[0] != "neo_geo"@[0]);
    assert("genesis"@[0] != "neo_geo"@[0]);
    assert("game_gear"@[0] != "dreamcast"@[0]);
    assert("game_gear"@[0] != "atari2600"@[0]);
    assert("saturn"@[0] != "arcade"@[0]);
    assert("dreamcast"@[0] != "atari2600"@[0]);
    assert("pc"@.len() == 2);
    assert("nes"@.len() == 3);
    assert("snes"@.len() == 4);
    assert("n64"@.len() == 3);
    assert("game_cube"@.len() == 9);
    assert("wii"@.len() == 3);
    assert("wii_u"@.len() == 5);
    assert("switch"@.len() == 6);
    assert("gameboy"@.len() == 7);
    assert("gameboy_color"@.len() == 13);
    assert("gameboy_advance"@.len() == 15);
    assert("nds"@.len() == 3);
    assert("threeds"@.len() == 7);
    assert("ps1"@.len() == 3);
    assert("ps2"@.len() == 3);
    assert("ps3"@.len() == 3);
    assert("psp"@.len() == 3);
    assert("ps_vita"@.len() == 7);
    assert("genesis"@.len() == 7);
    assert("master_system"@.len() == 13);
    assert("game_gear"@.len() == 9);
    assert("saturn"@.len() == 6);
    assert("dreamcast"@.len() == 9);
    assert("atari2600"@.len() == 9);
    assert("neo_geo"@.len() == 7);
    assert("arcade"@.len() == 6);
    assert("other"@.len() == 5);
    match p {
        Platform::Pc => {},
        Platform::Nes => {},
        Platform::Snes => {},
        Platform::N64 => {},
        Platform::GameCube => {},
        Platform::Wii => {},
        Platform::WiiU => {},
        Platform::Switch => {},
        Platform::Gameboy => {},
        Platform::GameboyColor => {},
        Platform::GameboyAdvance => {},
        Platform::Nds => {},
        Platform::Threeds => {},
        Platform::Ps1 => {},
        Platform::Ps2 => {},
        Platform::Ps3 => {},
        Platform::Psp => {},
        Platform::PsVita => {},
        Platform::Genesis => {},
        Platform::MasterSystem => {},
        Platform::GameGear => {},
        Platform::Saturn => {},
        Platform::Dreamcast => {},
        Platform::Atari2600 => {},
        Platform::NeoGeo => {},
        Platform::Arcade => {},
        Platform::Other => {},
    }
}

/// Serialise a platform to the snake_case name the wire uses.
pub fn platform_to_wire(p: Platform) -> (r: String)
    ensures
        r@ == p.spec_wire_name(),
{
    owned(p.wire_name())
}

/// A frame addressed to a peer.
pub type Send = (String, ChatProtocol);

/// The addresses a list of sends goes to.
pub open spec fn send_targets(s: Seq<Send>) -> Seq<Seq<char>> {
    s.map_values(|x: Send| x.0@)
}

/// The host name advertised for a room.
pub open spec fn advertised_host_name(v: RoomView) -> Seq<char> {
    match v.host_name {
        Some(n) => n,
        None => "Abyss host"@,
    }
}

/// We host a room with a game set.
pub open spec fn hosting(v: RoomView) -> bool {
    v.role == Some(RoomRole::Host) && v.platform is Some && v.game_name is Some
}

/// The frame is the advertise of room `v` at `now_ms`.
pub open spec fn is_advertise_of(f: ChatProtocol, v: RoomView, now_ms: i64) -> bool {
    f matches ChatProtocol::LobbyAdvertise { host_name, platform, game_name, members, sent_at_ms }
        && host_name@ == advertised_host_name(v) && platform@ == v.platform->0.spec_wire_name()
        && Some(game_name@) == v.game_name && members@.map_values(|m: String| m@)
        == v.members.map_values(|m: MemberView| m.0) && sent_at_ms == now_ms
}

fn connected_peers(chat: &ChatState) -> (r: Vec<String>)
    ensures
        r@.map_values(|s: String| s@) == connected_addrs(chat.peers_view()),
{
    let peers = chat.list_peers();
    let ghost pv = chat.peers_view();
    let mut out: Vec<String> = Vec::new();
    let mut i: usize = 0;
    while i < peers.len()
        invariant
            i <= peers@.len(),
            peers@.map_values(|p: PeerSnapshot| peer_snapshot_view(p)) == pv,
            out@.map_values(|s: String| s@) == connected_addrs(pv.take(i as int)),
        decreases peers.len() - i,
    {
        assert(pv[i as int] == peer_snapshot_view(peers@[i as int]));
        assert(pv.take(i + 1).drop_last() =~= pv.take(i as int));
        assert(pv.take(i + 1).last() == pv[i as int]);
        let ghost before = out@.map_values(|s: String| s@);
        if peers[i].connected {
            out.push(copy_string(&peers[i].addr));
            assert(out@.map_values(|s: String| s@) =~= before.push(pv[i as int].0));
        }
        i += 1;
    }
    assert(pv.take(pv.len() as int) =~= pv);
    out
}

fn member_addrs(ms: &Vec<RoomMember>) -> (r: Vec<String>)
    ensures
        r@.map_values(|s: String| s@) == crate::lobby::types::members_view(ms@).map_values(
            |m: MemberView| m.0,
        ),
{
    let mut out: Vec<String> = Vec::new();
    let mut i: usize = 0;
    while i < ms.len()
        invariant
            i <= ms@.len(),
            out@.map_values(|s: String| s@) == crate::lobby::types::members_view(ms@).map_values(
                |m: MemberView| m.0,
            ).take(i as int),
        decreases ms.len() - i,
    {
        let ghost before = out@.map_values(|s: String| s@);
        out.push(copy_string(&ms[i].addr));
        assert(out@.map_values(|s: String| s@) =~= before.push(ms@[i as int].addr@));
        assert(crate::lobby::types::members_view(ms@).map_values(|m: MemberView| m.0).take(i + 1)
            =~= crate::lobby::types::members_view(ms@).map_values(|m: MemberView| m.0).take(
            i as int,
        ).push(ms@[i as int].addr@));
        i += 1;
    }
    assert(crate::lobby::types::members_view(ms@).map_values(|m: MemberView| m.0).take(
        ms@.len() as int,
    ) =~= crate::lobby::types::members_view(ms@).map_values(|m: MemberView| m.0));
    out
}

/// Send the room to every connected chat peer, so the room banner stays
/// consistent. Only the host advertises; otherwise nothing is sent.
pub fn broadcast_advertise(lobby: &LobbyState, chat: &ChatState, now_ms: i64) -> (r: Vec<Send>)
    ensures
        !hosting(lobby.view()) ==> r@.len() == 0,
        hosting(lobby.view()) ==> send_targets(r@) == connected_addrs(chat.peers_view()) && forall|i: int|
            0 <= i < r@.len() ==> is_advertise_of((#[trigger] r@[i]).1, lobby.view(), now_ms),
{
    let room = lobby.current_room();
    if room.is_none() || !lobby.is_host() {
        return Vec::new();
    }
    let (platform, game_name, members) = room.unwrap();
    let snap = lobby.snapshot();
    let host_name = match snap.host_name {
        Some(n) => n,
        None => owned("Abyss host"),
    };
    let addrs = member_addrs(&members);
    let targets = connected_peers(chat);
    let mut out: Vec<Send> = Vec::new();
    let mut i: usize = 0;
    while i < targets.len()
        invariant
            i <= targets@.len(),
            hosting(lobby.view()),
            platform == lobby.view().platform->0,
            Some(game_name@) == lobby.view().game_name,
            host_name@ == advertised_host_name(lobby.view()),
            addrs@.map_values(|s: String| s@) == lobby.view().members.map_values(|m: MemberView| m.0),
            send_targets(out@) == targets@.map_values(|s: String| s@).take(i as int),
            forall|k: int| 0 <= k < out@.len() ==> is_advertise_of((#[trigger] out@[k]).1, lobby.view(), now_ms),
        decreases targets.len() - i,
    {
        let mut ms: Vec<String> = Vec::new();
        let mut j: usize = 0;
        while j < addrs.len()
            invariant
                j <= addrs@.len(),
                ms@.map_values(|s: String| s@) == addrs@.map_values(|s: String| s@).take(j as int),
            decreases addrs.len() - j,
        {
            let ghost b = ms@.map_values(|s: String| s@);
            ms.push(copy_string(&addrs[j]));
            assert(ms@.map_values(|s: String| s@) =~= b.push(addrs@[j as int]@));
            assert(addrs@.map_values(|s: String| s@).take(j + 1) =~= addrs@.map_values(|s: String| s@).take(j as int).push(addrs@[j as int]@));
            j += 1;
        }
        assert(addrs@.map_values(|s: String| s@).take(addrs@.len() as int) =~= addrs@.map_values(|s: String| s@));
        let frame = ChatProtocol::LobbyAdvertise {
            host_name: copy_string(&host_name),
            platform: platform_to_wire(platform),
            game_name: copy_string(&game_name),
            members: ms,
            sent_at_ms: now_ms,
        };
        let ghost before = out@;
        out.push((copy_string(&targets[i]), frame));
        assert(send_targets(out@) =~= send_targets(before).push(targets@[i as int]@));
        assert(targets@.map_values(|s: String| s@).take(i + 1) =~= targets@.map_values(|s: String| s@).take(i as int).push(targets@[i as int]@));
        assert forall|k: int| 0 <= k < out@.len() implies is_advertise_of((#[trigger] out@[k]).1, lobby.view(), now_ms) by {
            if k < before.len() {
                assert(out@[k] == before[k]);
            }
        }
        i += 1;
    }
    assert(targets@.map_values(|s: String| s@).take(targets@.len() as int) =~= targets@.map_values(|s: String| s@));
    out
}

/// Tell every connected peer the room is over.
pub fn broadcast_close(chat: &ChatState, now_ms: i64) -> (r: Vec<Send>)
    ensures
        send_targets(r@) == connected_addrs(chat.peers_view()),
        forall|i: int| 0 <= i < r@.len() ==> (#[trigger] r@[i]).1 == (ChatProtocol::LobbyClose { sent_at_ms: now_ms }),
{
    let targets = connected_peers(chat);
    let mut out: Vec<Send> = Vec::new();
    let mut i: usize = 0;
    while i < targets.len()
        invariant
            i <= targets@.len(),
            send_targets(out@) == targets@.map_values(|s: String| s@).take(i as int),
            forall|k: int| 0 <= k < out@.len() ==> (#[trigger] out@[k]).1 == (ChatProtocol::LobbyClose { sent_at_ms: now_ms }),
        decreases targets.len() - i,
    {
        let ghost before = out@;
        out.push((copy_string(&targets[i]), ChatProtocol::LobbyClose { sent_at_ms: now_ms }));
        assert(send_targets(out@) =~= send_targets(before).push(targets@[i as int]@));
        assert(targets@.map_values(|s: String| s@).take(i + 1) =~= targets@.map_values(|s: String| s@).take(i as int).push(targets@[i as int]@));
        assert forall|k: int| 0 <= k < out@.len() implies (#[trigger] out@[k]).1 == (ChatProtocol::LobbyClose { sent_at_ms: now_ms }) by {
            if k < before.len() {
                assert(out@[k] == before[k]);
            }
        }
        i += 1;
    }
    assert(targets@.map_values(|s: String| s@).take(targets@.len() as int) =~= targets@.map_values(|s: String| s@));
    out
}

/// What handling a lobby frame produced.
pub struct LobbyOutcome {
    /// Frames to send.
    pub sends: Vec<Send>,
    /// The room changed and should be re-published.
    pub room_changed: bool,
}

/// The peer is connected over chat.
pub open spec fn chat_connected(pv: Seq<(Seq<char>, PeerView)>, addr: Seq<char>) -> bool {
    match peer_index(pv, addr) {
        Some(i) => pv[i].1.connected,
        None => false,
    }
}

/// The host received a join request from `peer`. When we host a room the
/// peer becomes a member; if that changed the membership, the joiner is
/// told it is in (when connected) and the room is re-advertised.
pub fn on_join_request(
    lobby: &mut LobbyState,
    chat: &ChatState,
    peer: &str,
    display_name: String,
    now_ms: i64,
) -> (r: LobbyOutcome)
    requires
        old(lobby).wf(),
        chat.wf(),
    ensures
        final(lobby).wf(),
        !hosting(old(lobby).view()) ==> final(lobby).view() == old(lobby).view() && r.sends@.len() == 0
            && !r.room_changed,
        hosting(old(lobby).view()) ==> {
            let (ms, changed) = added(old(lobby).view().members, peer@, Some(display_name@));
            let accepted = if chat_connected(chat.peers_view(), peer@) {
                seq![peer@]
            } else {
                Seq::empty()
            };
            &&& final(lobby).view() == (RoomView { members: ms, ..old(lobby).view() })
            &&& r.room_changed == changed
            &&& !changed ==> r.sends@.len() == 0
            &&& changed ==> send_targets(r.sends@) == accepted + connected_addrs(chat.peers_view())
            &&& changed ==> forall|i: int|
                0 <= i < r.sends@.len() ==> if i < accepted.len() {
                    (#[trigger] r.sends@[i]).1 matches ChatProtocol::LobbyJoinAccepted {
                        platform,
                        game_name,
                        sent_at_ms,
                    } && platform@ == old(lobby).view().platform->0.spec_wire_name() && Some(game_name@)
                        == old(lobby).view().game_name && sent_at_ms == now_ms
                } else {
                    is_advertise_of(r.sends@[i].1, final(lobby).view(), now_ms)
                }
        },
{
    let room = lobby.current_room();
    if room.is_none() || !lobby.is_host() {
        return LobbyOutcome { sends: Vec::new(), room_changed: false };
    }
    let (platform, game_name, _) = room.unwrap();
    let changed = lobby.add_member(peer, Some(display_name));
    let mut sends: Vec<Send> = Vec::new();
    if changed {
        if chat.peer_connected(peer) {
            sends.push(
                (
                    owned(peer),
                    ChatProtocol::LobbyJoinAccepted {
                        platform: platform_to_wire(platform),
                        game_name,
                        sent_at_ms: now_ms,
                    },
                ),
            );
        }
        let ghost head = sends@;
        let adv = broadcast_advertise(lobby, chat, now_ms);
        crate::lobby::commands::append_sends(&mut sends, adv);
        proof {
            assert(sends@ =~= head + adv@);
            assert(send_targets(sends@) =~= send_targets(head) + send_targets(adv@));
            assert forall|i: int| head.len() <= i < sends@.len() implies is_advertise_of(
                (#[trigger] sends@[i]).1,
                lobby.view(),
                now_ms,
            ) by {
                assert(sends@[i] == adv@[i - head.len()]);
            }
        }
    }
    LobbyOutcome { sends, room_changed: changed }
}

/// The display name chat knows for a peer.
pub open spec fn chat_display_name(pv: Seq<(Seq<char>, PeerView)>, addr: Seq<char>) -> Option<Seq<char>> {
    match peer_index(pv, addr) {
        Some(i) => pv[i].1.display_name,
        None => None,
    }
}

/// A member was told by `host_peer` that it is in: it joins the room,
/// naming the host as chat knows it. A frame with an unknown platform is
/// ignored. Returns whether the room changed.
pub fn on_join_accepted(
    lobby: &mut LobbyState,
    chat: &ChatState,
    host_peer: &str,
    platform: &str,
    game_name: String,
) -> (r: bool)
    requires
        old(lobby).wf(),
        chat.wf(),
    ensures
        final(lobby).wf(),
        r == (platform_from_wire(platform@) is Some),
        platform_from_wire(platform@) is None ==> final(lobby).view() == old(lobby).view(),
        platform_from_wire(platform@) matches Some(p) ==> final(lobby).view() == (RoomView {
            role: Some(RoomRole::Member),
            host_addr: Some(host_peer@),
            host_name: chat_display_name(chat.peers_view(), host_peer@),
            platform: Some(p),
            game_name: Some(game_name@),
            members: Seq::empty(),
        }),
{
    let p = match parse_platform(platform) {
        Some(p) => p,
        None => return false,
    };
    let peers = chat.list_peers();
    let ghost pv = chat.peers_view();
    proof {
        chat.lemma_wf_distinct();
        crate::chat::state::lemma_peer_index(pv, host_peer@);
    }
    let mut host_name: Option<String> = None;
    let mut found = false;
    let mut i: usize = 0;
    while i < peers.len() && !found
        invariant
            i <= peers@.len(),
            peers@.map_values(|q: PeerSnapshot| peer_snapshot_view(q)) == pv,
            crate::chat::state::distinct_addrs(pv),
            !found ==> forall|j: int| 0 <= j < i ==> pv[j].0 != host_peer@,
            !found ==> host_name is None,
            found ==> opt_chars(host_name) == chat_display_name(pv, host_peer@),
        decreases peers.len() - i + (if found { 0int } else { 1int }),
    {
        assert(pv[i as int] == peer_snapshot_view(peers@[i as int]));
        if str_eq(peers[i].addr.as_str(), host_peer) {
            proof {
                crate::chat::state::lemma_peer_index(pv, host_peer@);
                match peer_index(pv, host_peer@) {
                    Some(k) => {
                        if k != i {
                            assert(pv[k].0 != pv[i as int].0);
                        }
                    },
                    None => {},
                }
            }
            host_name = match &peers[i].display_name {
                Some(n) => Some(copy_string(n)),
                None => None,
            };
            found = true;
        } else {
            i += 1;
        }
    }
    proof {
        crate::chat::state::lemma_peer_index(pv, host_peer@);
    }
    assert(opt_chars(host_name) == chat_display_name(pv, host_peer@));
    lobby.become_member(owned(host_peer), host_name, p, game_name);
    true
}

/// A room close or a leave arrived from `from`. As host, the member is
/// dropped and, if it was one, the room re-advertised. As member, the
/// room is cleared when the frame came from our host.
pub fn on_close_or_leave(lobby: &mut LobbyState, chat: &ChatState, from: &str, now_ms: i64) -> (r:
    LobbyOutcome)
    requires
        old(lobby).wf(),
    ensures
        final(lobby).wf(),
        old(lobby).view().role == Some(RoomRole::Host) ==> {
            &&& final(lobby).view() == (RoomView {
                members: without(old(lobby).view().members, from@),
                ..old(lobby).view()
            })
            &&& r.room_changed == (crate::lobby::state::member_index(old(lobby).view().members, from@) is Some)
            &&& !r.room_changed ==> r.sends@.len() == 0
            &&& r.room_changed ==> send_targets(r.sends@) == connected_addrs(chat.peers_view())
                && forall|i: int| 0 <= i < r.sends@.len() ==> is_advertise_of(
                    (#[trigger] r.sends@[i]).1,
                    final(lobby).view(),
                    now_ms,
                )
        },
        old(lobby).view().role != Some(RoomRole::Host) ==> {
            &&& r.sends@.len() == 0
            &&& old(lobby).view().host_addr == Some(from@) ==> final(lobby).view() == crate::lobby::types::no_room()
                && r.room_changed
            &&& old(lobby).view().host_addr != Some(from@) ==> final(lobby).view() == old(lobby).view()
                && !r.room_changed
        },
{
    proof {
        lobby.lemma_host_has_room();
    }
    if lobby.is_host() {
        if lobby.remove_member(from) {
            let sends = broadcast_advertise(lobby, chat, now_ms);
            return LobbyOutcome { sends, room_changed: true };
        }
        return LobbyOutcome { sends: Vec::new(), room_changed: false };
    }
    let snap = lobby.snapshot();
    let from_host = match &snap.host_addr {
        Some(h) => str_eq(h.as_str(), from),
        None => false,
    };
    if from_host {
        lobby.clear();
        return LobbyOutcome { sends: Vec::new(), room_changed: true };
    }
    LobbyOutcome { sends: Vec::new(), room_changed: false }
}

/// A room advertised by another host, for the UI to offer joining.
#[derive(Debug, Clone)]
pub struct IncomingInvite {
    pub host_addr: String,
    pub host_name: String,
    pub platform: Platform,
    pub game_name: String,
    pub members: Vec<String>,
}

/// A host advertised its room; frames with an unknown platform are ignored.
pub fn on_advertise(
    from_addr: &str,
    host_name: String,
    platform: &str,
    game_name: String,
    members: Vec<String>,
) -> (r: Option<IncomingInvite>)
    ensures
        match platform_from_wire(platform@) {
            Some(p) => r matches Some(inv) && inv.host_addr@ == from_addr@ && inv.host_name == host_name
                && inv.platform == p && inv.game_name == game_name && inv.members == members,
            None => r is None,
        },
{
    match parse_platform(platform) {
        Some(p) => Some(IncomingInvite { host_addr: owned(from_addr), host_name, platform: p, game_name, members }),
        None => None,
    }
}

/// What to launch when the host starts the game: our copy of the game as
/// a netplay client of `join_addr`.
#[derive(Debug, Clone)]
pub struct StartRequest {
    pub platform: Platform,
    pub game_name: String,
    pub join_addr: String,
}

/// The host started the game; frames with an unknown platform are ignored.
pub fn on_start_game(host_addr: String, platform: &str, game_name: String) -> (r: Option<StartRequest>)
    ensures
        match platform_from_wire(platform@) {
            Some(p) => r matches Some(s) && s.platform == p && s.game_name == game_name && s.join_addr
                == host_addr,
            None => r is None,
        },
{
    match parse_platform(platform) {
        Some(p) => Some(StartRequest { platform: p, game_name, join_addr: host_addr }),
        None => None,
    }
}

} // verus!

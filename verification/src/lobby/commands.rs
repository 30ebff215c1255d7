//! The decisions behind the lobby commands: hosting, closing, joining,
//! leaving and starting a room, and which library entry a room's game is.

use vstd::prelude::*;

use crate::chat::commands::connected_addrs;
use crate::chat::state::ChatState;
use crate::chat::types::ChatProtocol;
use crate::library::platform::Platform;
use crate::library::scanner::{normalise_for_hash, normalised, LibraryEntry};
use crate::lobby::handlers::{
    broadcast_advertise, broadcast_close, chat_connected, hosting, is_advertise_of, send_targets,
    Send,
};
use crate::lobby::state::{LobbyState, MemberView};
use crate::lobby::types::{no_room, snapshot_view, RoomRole, RoomSnapshot, RoomView};
use crate::text::{chars_eq, chars_of, copy_string, extend_str, owned, string_of, trim, trim_exec};

verus! {

/// Append `more` to `out`, keeping its order.
pub fn append_sends(out: &mut Vec<Send>, more: Vec<Send>)
    ensures
        final(out)@ == old(out)@ + more@,
{
    let ghost m0 = more@;
    let mut more = more;
    let mut rev: Vec<Send> = Vec::new();
    while more.len() > 0
        invariant
            more@.len() <= m0.len(),
            more@ == m0.take(more@.len() as int),
            more@.len() + rev@.len() == m0.len(),
            forall|k: int| 0 <= k < rev@.len() ==> rev@[k] == m0[m0.len() - 1 - k],
        decreases more@.len(),
    {
        let x = more.pop().unwrap();
        rev.push(x);
        assert(more@ =~= m0.take(more@.len() as int));
    }
    let ghost base = out@;
    while rev.len() > 0
        invariant
            rev@.len() <= m0.len(),
            out@ == base + m0.take(m0.len() - rev@.len()),
            forall|k: int| 0 <= k < rev@.len() ==> rev@[k] == m0[m0.len() - 1 - k],
        decreases rev@.len(),
    {
        let ghost n = rev@.len();
        let x = rev.pop().unwrap();
        out.push(x);
        assert(m0.take(m0.len() - n + 1) =~= m0.take(m0.len() - n).push(m0[m0.len() - n]));
        assert(out@ =~= base + m0.take(m0.len() - rev@.len()));
    }
    assert(m0.take(m0.len() as int) =~= m0);
}

/// The room we host after `host_room` with this game.
pub open spec fn hosted_room(platform: Platform, game_name: Seq<char>, host_name: Seq<char>) -> RoomView {
    RoomView {
        role: Some(RoomRole::Host),
        host_addr: Some("self"@),
        host_name: Some(host_name),
        platform: Some(platform),
        game_name: Some(game_name),
        members: Seq::empty(),
    }
}

/// Start hosting a room with the chosen game. A room we already host for
/// another game is closed first; a room we are a member of is left first.
/// The new room is advertised to every connected chat peer. Returns the
/// room and the frames to send.
pub fn host_room(
    lobby: &mut LobbyState,
    chat: &ChatState,
    platform: Platform,
    game_name: String,
    now_ms: i64,
) -> (r: (RoomSnapshot, Vec<Send>))
    requires
        old(lobby).wf(),
        chat.wf(),
    ensures
        final(lobby).wf(),
        final(lobby).view() == hosted_room(
            platform,
            game_name@,
            match chat.self_name_view() {
                Some(n) => n,
                None => "Abyss user"@,
            },
        ),
        snapshot_view(r.0) == final(lobby).view(),
        ({
            let old_v = old(lobby).view();
            let replacing = hosting(old_v) && (old_v.platform != Some(platform) || old_v.game_name
                != Some(game_name@));
            let leaving_host = if old_v.role == Some(RoomRole::Member) {
                match old_v.host_addr {
                    Some(h) => if h.len() > 0 && chat_connected(chat.peers_view(), h) {
                        seq![h]
                    } else {
                        Seq::empty()
                    },
                    None => Seq::empty(),
                }
            } else {
                Seq::empty()
            };
            let closed = if replacing {
                connected_addrs(chat.peers_view()).len()
            } else {
                0
            };
            &&& send_targets(r.1@) == (if replacing {
                connected_addrs(chat.peers_view())
            } else {
                Seq::empty()
            }) + leaving_host + connected_addrs(chat.peers_view())
            &&& forall|i: int|
                0 <= i < r.1@.len() ==> if i < closed {
                    (#[trigger] r.1@[i]).1 == (ChatProtocol::LobbyClose { sent_at_ms: now_ms })
                } else if i < closed + leaving_host.len() {
                    r.1@[i].1 == (ChatProtocol::LobbyLeave { sent_at_ms: now_ms })
                } else {
                    is_advertise_of(r.1@[i].1, final(lobby).view(), now_ms)
                }
        }),
{
    let mut sends: Vec<Send> = Vec::new();
    let snap = lobby.snapshot();
    let room = lobby.current_room();
    let ghost s0 = Seq::<Send>::empty();
    let ghost mut closes_v = Seq::<Send>::empty();
    match room {
        Some((prev_platform, prev_name, _)) => {
            let name_chars = chars_of(game_name.as_str());
            let prev_chars = chars_of(prev_name.as_str());
            if lobby.is_host() && (prev_platform != platform || !chars_eq(
                prev_chars.as_slice(),
                name_chars.as_slice(),
            )) {
                let closes = broadcast_close(chat, now_ms);
                proof {
                    closes_v = closes@;
                }
                append_sends(&mut sends, closes);
                lobby.clear();
            }
        },
        None => {},
    }
    let ghost after_close = sends@;
    let is_member = match snap.role {
        Some(RoomRole::Member) => true,
        _ => false,
    };
    if is_member {
        match &snap.host_addr {
            Some(host) => {
                if chars_of(host.as_str()).len() > 0 && chat.peer_connected(host.as_str()) {
                    sends.push((copy_string(host), ChatProtocol::LobbyLeave { sent_at_ms: now_ms }));
                }
            },
            None => {},
        }
        lobby.clear();
    }
    let ghost after_leave = sends@;
    let host_name = chat.self_name();
    lobby.become_host(platform, game_name, host_name);
    let adv = broadcast_advertise(lobby, chat, now_ms);
    append_sends(&mut sends, adv);
    proof {
        let old_v = old(lobby).view();
        assert(send_targets(sends@) =~= send_targets(after_leave) + send_targets(adv@));
        assert(send_targets(after_leave) =~= send_targets(after_close) + send_targets(
            after_leave.skip(after_close.len() as int),
        ));
        assert(sends@ =~= after_leave + adv@);
        assert(after_close =~= closes_v);
        assert(send_targets(closes_v).len() == closes_v.len());
        assert(send_targets(after_leave.skip(after_close.len() as int)).len() == after_leave.len()
            - after_close.len());
        assert forall|i: int| 0 <= i < sends@.len() implies if i < after_close.len() {
            (#[trigger] sends@[i]).1 == (ChatProtocol::LobbyClose { sent_at_ms: now_ms })
        } else if i < after_leave.len() {
            sends@[i].1 == (ChatProtocol::LobbyLeave { sent_at_ms: now_ms })
        } else {
            is_advertise_of(sends@[i].1, lobby.view(), now_ms)
        } by {
            if i < after_leave.len() {
                assert(sends@[i] == after_leave[i]);
                if i < after_close.len() {
                    assert(after_leave[i] == after_close[i]);
                    assert(closes_v[i].1 == (ChatProtocol::LobbyClose { sent_at_ms: now_ms }));
                }
            } else {
                assert(sends@[i] == adv@[i - after_leave.len()]);
            }
        }
    }
    (lobby.snapshot(), sends)
}

/// Stop hosting and tell every member the room is over. Returns the
/// (now empty) room and the frames to send.
pub fn close_room(lobby: &mut LobbyState, chat: &ChatState, now_ms: i64) -> (r: (RoomSnapshot, Vec<Send>))
    requires
        old(lobby).wf(),
    ensures
        final(lobby).wf(),
        final(lobby).view() == no_room(),
        snapshot_view(r.0) == no_room(),
        send_targets(r.1@) == if old(lobby).view().role == Some(RoomRole::Host) {
            connected_addrs(chat.peers_view())
        } else {
            Seq::empty()
        },
        forall|i: int| 0 <= i < r.1@.len() ==> (#[trigger] r.1@[i]).1 == (ChatProtocol::LobbyClose { sent_at_ms: now_ms }),
{
    let mut sends: Vec<Send> = Vec::new();
    if lobby.is_host() {
        sends = broadcast_close(chat, now_ms);
    }
    lobby.clear();
    proof {
        if old(lobby).view().role != Some(RoomRole::Host) {
            assert(send_targets(sends@) =~= Seq::<Seq<char>>::empty());
        }
    }
    (lobby.snapshot(), sends)
}

/// Ask `host_addr` to let us join its room: the join request to send, or
/// an error when there is no chat link to the host yet. The room changes
/// only when the host accepts.
pub fn request_join(chat: &ChatState, host_addr: &str, now_ms: i64) -> (r: Result<Send, String>)
    requires
        chat.wf(),
    ensures
        !chat_connected(chat.peers_view(), host_addr@) ==> (r matches Err(e) && e@ == "not connected to "@
            + host_addr@ + " via chat yet — click 'link' in Friends first"@),
        chat_connected(chat.peers_view(), host_addr@) ==> (r matches Ok((to, f)) && to@ == host_addr@
            && (f matches ChatProtocol::LobbyJoinRequest { display_name, sent_at_ms } && display_name@
            == match chat.self_name_view() {
                Some(n) => n,
                None => "Abyss user"@,
            } && sent_at_ms == now_ms)),
{
    if !chat.peer_connected(host_addr) {
        let mut e: Vec<char> = Vec::new();
        extend_str(&mut e, "not connected to ");
        extend_str(&mut e, host_addr);
        extend_str(&mut e, " via chat yet — click 'link' in Friends first");
        return Err(string_of(e.as_slice()));
    }
    Ok((owned(host_addr), ChatProtocol::LobbyJoinRequest { display_name: chat.self_name(), sent_at_ms: now_ms }))
}

/// Leave the current room: as host this closes it for everyone; as member
/// the host is told we left.
pub fn leave_room(lobby: &mut LobbyState, chat: &ChatState, now_ms: i64) -> (r: (RoomSnapshot, Vec<Send>))
    requires
        old(lobby).wf(),
        chat.wf(),
    ensures
        final(lobby).wf(),
        final(lobby).view() == no_room(),
        snapshot_view(r.0) == no_room(),
        old(lobby).view().role == Some(RoomRole::Host) ==> send_targets(r.1@) == connected_addrs(chat.peers_view()),
        old(lobby).view().role == Some(RoomRole::Host) ==> forall|i: int| 0 <= i < r.1@.len() ==> (#[trigger] r.1@[i]).1 == (ChatProtocol::LobbyClose { sent_at_ms: now_ms }),
        old(lobby).view().role != Some(RoomRole::Host) ==> send_targets(r.1@) == match old(lobby).view().host_addr {
            Some(h) => if chat_connected(chat.peers_view(), h) { seq![h] } else { Seq::empty() },
            None => Seq::empty(),
        },
        old(lobby).view().role != Some(RoomRole::Host) ==> forall|i: int| 0 <= i < r.1@.len() ==> (#[trigger] r.1@[i]).1 == (ChatProtocol::LobbyLeave { sent_at_ms: now_ms }),
{
    let snap = lobby.snapshot();
    let mut sends: Vec<Send> = Vec::new();
    if lobby.is_host() {
        sends = broadcast_close(chat, now_ms);
    } else {
        match &snap.host_addr {
            Some(h) => {
                if chat.peer_connected(h.as_str()) {
                    sends.push((copy_string(h), ChatProtocol::LobbyLeave { sent_at_ms: now_ms }));
                }
            },
            None => {},
        }
    }
    lobby.clear();
    proof {
        let old_v = old(lobby).view();
        if old_v.role != Some(RoomRole::Host) {
            match old_v.host_addr {
                Some(h) => {
                    if chat_connected(chat.peers_view(), h) {
                        assert(send_targets(sends@) =~= seq![h]);
                    } else {
                        assert(send_targets(sends@) =~= Seq::<Seq<char>>::empty());
                    }
                },
                None => {
                    assert(send_targets(sends@) =~= Seq::<Seq<char>>::empty());
                },
            }
        }
    }
    (lobby.snapshot(), sends)
}

/// The members of a room that have a live chat link, in member order.
pub open spec fn reachable_members(ms: Seq<MemberView>, pv: Seq<(Seq<char>, crate::chat::types::PeerView)>) -> Seq<Seq<char>>
    decreases ms.len(),
{
    if ms.len() == 0 {
        Seq::empty()
    } else if chat_connected(pv, ms.last().0) {
        reachable_members(ms.drop_last(), pv).push(ms.last().0)
    } else {
        reachable_members(ms.drop_last(), pv)
    }
}

/// What starting the game launches and tells the members.
pub struct StartPlan {
    pub platform: Platform,
    pub game_name: String,
    /// The start frame for every member with a live chat link.
    pub sends: Vec<Send>,
}

/// The host hit Start: check we host a room with a game and a non-blank
/// host address, and build the start frame for every reachable member.
/// The host then launches its own copy as the netplay host.
pub fn start_game(lobby: &LobbyState, chat: &ChatState, host_ip: &str, now_ms: i64) -> (r: Result<StartPlan, String>)
    requires
        chat.wf(),
    ensures
        lobby.view().role != Some(RoomRole::Host) ==> (r matches Err(e) && e@ == "only the host can start the game"@),
        lobby.view().role == Some(RoomRole::Host) && !(lobby.view().platform is Some && lobby.view().game_name is Some)
            ==> (r matches Err(e) && e@ == "no active room"@),
        hosting(lobby.view()) && trim(host_ip@).len() == 0 ==> (r matches Err(e) && e@
            == "host IP is empty — pick your tailnet address in the Lobby panel"@),
        hosting(lobby.view()) && trim(host_ip@).len() > 0 ==> (r matches Ok(plan) && Some(plan.platform)
            == lobby.view().platform && Some(plan.game_name@) == lobby.view().game_name && send_targets(
            plan.sends@,
        ) == reachable_members(lobby.view().members, chat.peers_view()) && forall|i: int|
            0 <= i < plan.sends@.len() ==> ((#[trigger] plan.sends@[i]).1 matches ChatProtocol::LobbyStartGame {
                platform,
                game_name,
                host_addr,
                sent_at_ms,
            } && platform@ == plan.platform.spec_wire_name() && game_name@ == plan.game_name@ && host_addr@
                == host_ip@ && sent_at_ms == now_ms)),
{
    if !lobby.is_host() {
        return Err(owned("only the host can start the game"));
    }
    let (platform, game_name, members) = match lobby.current_room() {
        Some(x) => x,
        None => {
            return Err(owned("no active room"));
        },
    };
    let ip = chars_of(host_ip);
    let t = trim_exec(ip.as_slice());
    if t.len() == 0 {
        return Err(owned("host IP is empty — pick your tailnet address in the Lobby panel"));
    }
    let ghost ms = lobby.view().members;
    let ghost pv = chat.peers_view();
    let mut sends: Vec<Send> = Vec::new();
    let mut i: usize = 0;
    while i < members.len()
        invariant
            i <= members@.len(),
            crate::lobby::types::members_view(members@) == ms,
            ms == lobby.view().members,
            pv == chat.peers_view(),
            chat.wf(),
            send_targets(sends@) == reachable_members(ms.take(i as int), pv),
            forall|k: int| 0 <= k < sends@.len() ==> ((#[trigger] sends@[k]).1 matches ChatProtocol::LobbyStartGame {
                platform: p,
                game_name: g,
                host_addr,
                sent_at_ms,
            } && p@ == platform.spec_wire_name() && g@ == game_name@ && host_addr@ == host_ip@ && sent_at_ms == now_ms),
        decreases members.len() - i,
    {
        let m = &members[i];
        assert(ms[i as int] == crate::lobby::types::member_view(*m));
        assert(ms.take(i + 1).drop_last() =~= ms.take(i as int));
        assert(ms.take(i + 1).last() == ms[i as int]);
        let ghost before = sends@;
        if chat.peer_connected(m.addr.as_str()) {
            let frame = ChatProtocol::LobbyStartGame {
                platform: crate::lobby::handlers::platform_to_wire(platform),
                game_name: copy_string(&game_name),
                host_addr: owned(host_ip),
                sent_at_ms: now_ms,
            };
            sends.push((copy_string(&m.addr), frame));
            assert(send_targets(sends@) =~= send_targets(before).push(m.addr@));
            assert forall|k: int| 0 <= k < sends@.len() implies ((#[trigger] sends@[k]).1 matches ChatProtocol::LobbyStartGame {
                platform: p,
                game_name: g,
                host_addr,
                sent_at_ms,
            } && p@ == platform.spec_wire_name() && g@ == game_name@ && host_addr@ == host_ip@ && sent_at_ms == now_ms) by {
                if k < before.len() {
                    assert(sends@[k] == before[k]);
                }
            }
        }
        i += 1;
    }
    assert(ms.take(ms.len() as int) =~= ms);
    Ok(StartPlan { platform, game_name, sends })
}

/// The netplay argument RetroArch gets: `--connect=<host>` for a member,
/// `--host` for the host.
pub fn netplay_flag(join_addr: Option<&str>) -> (r: String)
    ensures
        r@ == match join_addr {
            Some(a) => "--connect="@ + a@,
            None => "--host"@,
        },
{
    match join_addr {
        Some(a) => {
            let mut v: Vec<char> = Vec::new();
            extend_str(&mut v, "--connect=");
            extend_str(&mut v, a);
            string_of(v.as_slice())
        },
        None => owned("--host"),
    }
}

/// Index of the first library entry that is the room's game: same
/// platform, and the same stem after normalisation.
pub open spec fn room_entry_index<M, E>(entries: Seq<LibraryEntry<M, E>>, platform: Platform, game_name: Seq<char>) -> Option<int>
    decreases entries.len(),
{
    if entries.len() == 0 {
        None
    } else if entries[0].file.platform == platform && normalised(entries[0].file.stem@) == normalised(game_name) {
        Some(0)
    } else {
        match room_entry_index(entries.drop_first(), platform, game_name) {
            Some(i) => Some(i + 1),
            None => None,
        }
    }
}

/// Find the local copy of a room's game. Entry ids differ between
/// machines, so the game is matched by platform and normalised name.
pub fn find_room_entry<M, E>(entries: &Vec<LibraryEntry<M, E>>, platform: Platform, game_name: &str) -> (r: Option<usize>)
    ensures
        match room_entry_index(entries@, platform, game_name@) {
            Some(i) => r == Some(i as usize),
            None => r is None,
        },
{
    let needle = normalise_for_hash(game_name);
    let nd = chars_of(needle.as_str());
    let mut i: usize = 0;
    assert(entries@.skip(0) =~= entries@);
    while i < entries.len()
        invariant
            i <= entries@.len(),
            nd@ == normalised(game_name@),
            room_entry_index(entries@, platform, game_name@) == match room_entry_index(entries@.skip(i as int), platform, game_name@) {
                Some(k) => Some(k + i),
                None => None,
            },
        decreases entries.len() - i,
    {
        let e = &entries[i];
        assert(entries@.skip(i as int)[0] == entries@[i as int]);
        if e.file.platform == platform {
            let n = normalise_for_hash(e.file.stem.as_str());
            let nc = chars_of(n.as_str());
            if chars_eq(nc.as_slice(), nd.as_slice()) {
                return Some(i);
            }
        }
        assert(entries@.skip(i as int).drop_first() =~= entries@.skip(i + 1));
        i += 1;
    }
    None
}

} // verus!

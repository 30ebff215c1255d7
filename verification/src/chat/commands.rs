//! The decisions behind the chat commands: status, presence broadcasts,
//! sending a message, and which mesh peers to dial.

use vstd::prelude::*;

use crate::chat::state::{capped, peer_index, ChatState};
use crate::chat::types::{ChatHistoryEntry, ChatProtocol, Direction, EntryView, PeerView, PresenceStatus};
use crate::mesh::types::MeshPeer;
use crate::text::{chars_of, copy_string, extend_str, opt_chars, owned, str_eq, string_of};

verus! {

/// What the chat status query returns.
#[derive(Debug, Clone)]
pub struct ChatStatus {
    pub running: bool,
    pub self_name: String,
    pub presence: PresenceStatus,
    pub activity: Option<String>,
}

/// The chat status, given whether the listener task is running.
pub fn chat_status(state: &ChatState, running: bool) -> (r: ChatStatus)
    ensures
        r.running == running,
        r.self_name@ == match state.self_name_view() {
            Some(n) => n,
            None => "Abyss user"@,
        },
        (r.presence, opt_chars(r.activity)) == state.presence_view(),
{
    let (presence, activity) = state.presence();
    ChatStatus { running, self_name: state.self_name(), presence, activity }
}

/// The addresses of the connected peers, in peer order.
pub open spec fn connected_addrs(pv: Seq<(Seq<char>, PeerView)>) -> Seq<Seq<char>>
    decreases pv.len(),
{
    if pv.len() == 0 {
        Seq::empty()
    } else if pv.last().1.connected {
        connected_addrs(pv.drop_last()).push(pv.last().0)
    } else {
        connected_addrs(pv.drop_last())
    }
}

fn copy_opt(o: &Option<String>) -> (r: Option<String>)
    ensures
        opt_chars(r) == opt_chars(*o),
{
    match o {
        Some(s) => Some(copy_string(s)),
        None => None,
    }
}

/// Set our presence and return the `Presence` frame to send to each
/// connected peer (address and frame).
pub fn broadcast_presence(
    state: &mut ChatState,
    status: PresenceStatus,
    activity: Option<String>,
    now_ms: i64,
) -> (r: Vec<(String, ChatProtocol)>)
    requires
        old(state).wf(),
    ensures
        final(state).wf(),
        final(state).presence_view() == (status, opt_chars(activity)),
        final(state).peers_view() == old(state).peers_view(),
        final(state).history_view() == old(state).history_view(),
        final(state).self_name_view() == old(state).self_name_view(),
        r@.map_values(|x: (String, ChatProtocol)| x.0@) == connected_addrs(old(state).peers_view()),
        forall|i: int|
            0 <= i < r@.len() ==> ((#[trigger] r@[i]).1 matches ChatProtocol::Presence {
                status: s,
                activity: a,
                sent_at_ms,
            } && s == status && opt_chars(a) == opt_chars(activity) && sent_at_ms == now_ms),
{
    let ghost act = opt_chars(activity);
    let mine = copy_opt(&activity);
    state.set_presence(status, activity);
    let peers = state.list_peers();
    let ghost pv = state.peers_view();
    let mut out: Vec<(String, ChatProtocol)> = Vec::new();
    let mut i: usize = 0;
    while i < peers.len()
        invariant
            i <= peers@.len(),
            peers@.map_values(|p: crate::chat::types::PeerSnapshot| crate::chat::types::snapshot_view(p)) == pv,
            opt_chars(mine) == act,
            out@.map_values(|x: (String, ChatProtocol)| x.0@) == connected_addrs(pv.take(i as int)),
            forall|k: int|
                0 <= k < out@.len() ==> ((#[trigger] out@[k]).1 matches ChatProtocol::Presence {
                    status: s,
                    activity: a,
                    sent_at_ms,
                } && s == status && opt_chars(a) == act && sent_at_ms == now_ms),
        decreases peers.len() - i,
    {
        let p = &peers[i];
        assert(pv[i as int] == crate::chat::types::snapshot_view(*p));
        assert(pv.take(i + 1).drop_last() =~= pv.take(i as int));
        assert(pv.take(i + 1).last() == pv[i as int]);
        let ghost before = out@;
        if p.connected {
            let frame = ChatProtocol::Presence {
                status,
                activity: copy_opt(&mine),
                sent_at_ms: now_ms,
            };
            out.push((copy_string(&p.addr), frame));
            assert(out@.map_values(|x: (String, ChatProtocol)| x.0@) =~= before.map_values(
                |x: (String, ChatProtocol)| x.0@,
            ).push(p.addr@));
            assert forall|k: int| 0 <= k < out@.len() implies ((#[trigger] out@[k]).1 matches ChatProtocol::Presence {
                status: s,
                activity: a,
                sent_at_ms,
            } && s == status && opt_chars(a) == act && sent_at_ms == now_ms) by {
                if k < before.len() {
                    assert(out@[k] == before[k]);
                }
            }
        }
        i += 1;
    }
    assert(pv.take(pv.len() as int) =~= pv);
    out
}

/// Mirror a local activity (e.g. "launching X") into our presence:
/// `Playing` with the activity, or `Idle` when there is none, and the
/// frames announcing it to every connected peer.
pub fn announce_local_activity(state: &mut ChatState, activity: Option<String>, now_ms: i64) -> (r:
    Vec<(String, ChatProtocol)>)
    requires
        old(state).wf(),
    ensures
        final(state).wf(),
        final(state).presence_view() == (
            if activity is Some {
                PresenceStatus::Playing
            } else {
                PresenceStatus::Idle
            },
            opt_chars(activity),
        ),
        final(state).peers_view() == old(state).peers_view(),
        final(state).history_view() == old(state).history_view(),
        final(state).self_name_view() == old(state).self_name_view(),
        r@.map_values(|x: (String, ChatProtocol)| x.0@) == connected_addrs(old(state).peers_view()),
        forall|i: int|
            0 <= i < r@.len() ==> ((#[trigger] r@[i]).1 matches ChatProtocol::Presence {
                status: s,
                activity: a,
                sent_at_ms,
            } && s == (if activity is Some {
                PresenceStatus::Playing
            } else {
                PresenceStatus::Idle
            }) && opt_chars(a) == opt_chars(activity) && sent_at_ms == now_ms),
{
    let status = if activity.is_some() {
        PresenceStatus::Playing
    } else {
        PresenceStatus::Idle
    };
    broadcast_presence(state, status, activity, now_ms)
}

/// Send a chat message to a connected peer: the frame to write and the
/// entry recorded in the history, or an error when no live connection to
/// the peer exists.
pub fn prepare_send(
    state: &mut ChatState,
    peer_addr: &str,
    body: &str,
    id: &str,
    now_ms: i64,
) -> (r: Result<(ChatProtocol, ChatHistoryEntry), String>)
    requires
        old(state).wf(),
    ensures
        final(state).wf(),
        final(state).peers_view() == old(state).peers_view(),
        final(state).presence_view() == old(state).presence_view(),
        final(state).self_name_view() == old(state).self_name_view(),
        ({
            let connected = match peer_index(old(state).peers_view(), peer_addr@) {
                Some(i) => old(state).peers_view()[i].1.connected,
                None => false,
            };
            let e = EntryView {
                id: id@,
                peer_addr: peer_addr@,
                direction: Direction::Outbound,
                body: body@,
                at_ms: now_ms,
            };
            &&& !connected ==> (r matches Err(m) && m@ == "no live connection to "@ + peer_addr@)
                && final(state).history_view() == old(state).history_view()
            &&& connected ==> (r matches Ok((f, stored)) && stored@ == e && (f matches ChatProtocol::Chat {
                id: fid,
                body: fbody,
                sent_at_ms,
            } && fid@ == id@ && fbody@ == body@ && sent_at_ms == now_ms))
            &&& connected ==> final(state).history_view() == capped(old(state).history_view().push(e))
        }),
{
    if !state.peer_connected(peer_addr) {
        let mut e: Vec<char> = Vec::new();
        extend_str(&mut e, "no live connection to ");
        extend_str(&mut e, peer_addr);
        return Err(string_of(e.as_slice()));
    }
    let frame = ChatProtocol::Chat { id: owned(id), body: owned(body), sent_at_ms: now_ms };
    let entry = ChatHistoryEntry {
        id: owned(id),
        peer_addr: owned(peer_addr),
        direction: Direction::Outbound,
        body: owned(body),
        at_ms: now_ms,
    };
    let stored = state.append_history(entry);
    Ok((frame, stored))
}

/// A mesh peer answers to `host`: one of its addresses, its DNS name or
/// its host name.
pub open spec fn peer_matches(p: MeshPeer, host: Seq<char>) -> bool {
    (exists|i: int| 0 <= i < p.addrs@.len() && #[trigger] p.addrs@[i]@ == host) || p.dns_name@
        == host || p.host_name@ == host
}

/// Index of the first mesh peer that answers to `host`.
pub open spec fn matching_peer(ps: Seq<MeshPeer>, host: Seq<char>) -> Option<int>
    decreases ps.len(),
{
    if ps.len() == 0 {
        None
    } else if peer_matches(ps[0], host) {
        Some(0)
    } else {
        match matching_peer(ps.drop_first(), host) {
            Some(i) => Some(i + 1),
            None => None,
        }
    }
}

/// The error for dialling a peer the mesh reports offline.
pub open spec fn offline_message(p: MeshPeer, host: Seq<char>) -> Seq<char> {
    (if p.host_name@.len() > 0 {
        p.host_name@
    } else {
        host
    }) + " is offline — they need to open Abyss to receive chats."@
}

fn peer_matches_exec(p: &MeshPeer, host: &str) -> (r: bool)
    ensures
        r == peer_matches(*p, host@),
{
    let mut i: usize = 0;
    while i < p.addrs.len()
        invariant
            i <= p.addrs@.len(),
            forall|j: int| 0 <= j < i ==> p.addrs@[j]@ != host@,
        decreases p.addrs.len() - i,
    {
        if str_eq(p.addrs[i].as_str(), host) {
            return true;
        }
        i += 1;
    }
    str_eq(p.dns_name.as_str(), host) || str_eq(p.host_name.as_str(), host)
}

/// Pre-flight before dialling `host`: when the mesh knows the peer and
/// reports it offline, the dial would only time out, so the error to show
/// instead; `None` when the dial should be tried (online, or unknown).
pub fn offline_preflight(peers: &Vec<MeshPeer>, host: &str) -> (r: Option<String>)
    ensures
        match matching_peer(peers@, host@) {
            Some(i) => if peers@[i].online {
                r is None
            } else {
                r matches Some(m) && m@ == offline_message(peers@[i], host@)
            },
            None => r is None,
        },
{
    let mut i: usize = 0;
    assert(peers@.skip(0) =~= peers@);
    while i < peers.len()
        invariant
            i <= peers@.len(),
            matching_peer(peers@, host@) == match matching_peer(peers@.skip(i as int), host@) {
                Some(k) => Some(k + i),
                None => None,
            },
        decreases peers.len() - i,
    {
        assert(peers@.skip(i as int)[0] == peers@[i as int]);
        if peer_matches_exec(&peers[i], host) {
            let p = &peers[i];
            if p.online {
                return None;
            }
            let mut v: Vec<char> = Vec::new();
            if chars_of(p.host_name.as_str()).len() > 0 {
                extend_str(&mut v, p.host_name.as_str());
            } else {
                extend_str(&mut v, host);
            }
            extend_str(&mut v, " is offline — they need to open Abyss to receive chats.");
            return Some(string_of(v.as_slice()));
        }
        assert(peers@.skip(i as int).drop_first() =~= peers@.skip(i + 1));
        i += 1;
    }
    None
}

/// The first address of every online mesh peer that has one: the peers
/// the chat client dials when it comes online.
pub open spec fn dial_targets(ps: Seq<MeshPeer>) -> Seq<Seq<char>>
    decreases ps.len(),
{
    if ps.len() == 0 {
        Seq::empty()
    } else if ps.last().online && ps.last().addrs@.len() > 0 {
        dial_targets(ps.drop_last()).push(ps.last().addrs@[0]@)
    } else {
        dial_targets(ps.drop_last())
    }
}

/// Addresses to open chat links to.
pub fn auto_connect_targets(peers: &Vec<MeshPeer>) -> (r: Vec<String>)
    ensures
        r@.map_values(|s: String| s@) == dial_targets(peers@),
{
    let mut out: Vec<String> = Vec::new();
    let mut i: usize = 0;
    while i < peers.len()
        invariant
            i <= peers@.len(),
            out@.map_values(|s: String| s@) == dial_targets(peers@.take(i as int)),
        decreases peers.len() - i,
    {
        let p = &peers[i];
        assert(peers@.take(i + 1).drop_last() =~= peers@.take(i as int));
        assert(peers@.take(i + 1).last() == *p);
        let ghost before = out@.map_values(|s: String| s@);
        if p.online && p.addrs.len() > 0 {
            out.push(copy_string(&p.addrs[0]));
            assert(out@.map_values(|s: String| s@) =~= before.push(p.addrs@[0]@));
        }
        i += 1;
    }
    assert(peers@.take(peers@.len() as int) =~= peers@);
    out
}

} // verus!

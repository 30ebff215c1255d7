//! How a received frame updates the chat state and what goes back to the
//! peer. The host application runs the connection: it reads a frame,
//! applies [`handle_frame`], writes the replies, emits the events and
//! hands the frames meant for file transfer, lobby or stream pairing to
//! their handlers.

use vstd::prelude::*;

use crate::chat::state::{capped, peers_upserted, ChatState, PeerUpdate};
use crate::chat::types::{ChatHistoryEntry, ChatProtocol, Direction, EntryView, PeerView, PresenceStatus};
use crate::text::{copy_string, digits, extend_str, opt_chars, owned, push_hex, string_of};

verus! {

/// What handling one frame produced.
pub struct FrameOutcome {
    /// Frames to send back to the same peer, in order.
    pub replies: Vec<ChatProtocol>,
    /// The peer list changed and should be re-published.
    pub peers_changed: bool,
    /// A chat message that was stored and should be published.
    pub message: Option<ChatHistoryEntry>,
    /// A frame for another subsystem (file transfer, lobby, stream pairing).
    pub dispatch: Option<ChatProtocol>,
}

/// The frame is handled by another subsystem.
pub open spec fn is_dispatched(f: ChatProtocol) -> bool {
    !(f is Hello || f is Chat || f is Presence || f is Ping || f is Pong)
}

/// The peer update a frame causes, given the time it arrived.
pub open spec fn frame_update(f: ChatProtocol, now_ms: i64) -> PeerUpdate {
    match f {
        ChatProtocol::Hello { name, .. } => PeerUpdate {
            display_name: Some(Some(name)),
            last_seen_ms: Some(Some(now_ms)),
            presence: None,
            activity: None,
            connected: None,
        },
        ChatProtocol::Presence { status, activity, .. } => PeerUpdate {
            display_name: None,
            last_seen_ms: Some(Some(now_ms)),
            presence: Some(Some(status)),
            activity: Some(activity),
            connected: None,
        },
        _ => PeerUpdate {
            display_name: None,
            last_seen_ms: Some(Some(now_ms)),
            presence: None,
            activity: None,
            connected: None,
        },
    }
}

/// The frame refreshes the peer's record.
pub open spec fn touches_peer(f: ChatProtocol) -> bool {
    f is Hello || f is Chat || f is Presence || f is Pong
}

fn touch(now_ms: i64) -> (u: PeerUpdate)
    ensures
        u.display_name is None,
        u.last_seen_ms == Some(Some(now_ms)),
        u.presence is None,
        u.activity is None,
        u.connected is None,
{
    let mut u = PeerUpdate::none();
    u.last_seen_ms = Some(Some(now_ms));
    u
}

/// Apply a frame received from `peer` at `now_ms`.
///
/// `Hello` records the peer's name and answers with our `Hello` and
/// `Presence`; `Chat` stores an inbound message; `Presence` records the
/// peer's status; `Ping` is answered with a `Pong` carrying the same
/// timestamp; `Pong` only refreshes the peer. Every other frame is handed
/// on unchanged.
pub fn handle_frame(
    state: &mut ChatState,
    peer: &str,
    frame: ChatProtocol,
    now_ms: i64,
    app_version: &str,
) -> (r: FrameOutcome)
    requires
        old(state).wf(),
    ensures
        final(state).wf(),
        final(state).self_name_view() == old(state).self_name_view(),
        final(state).presence_view() == old(state).presence_view(),
        touches_peer(frame) ==> final(state).peers_view() == peers_upserted(
            old(state).peers_view(),
            peer@,
            frame_update(frame, now_ms),
        ),
        !touches_peer(frame) ==> final(state).peers_view() == old(state).peers_view(),
        frame is Chat ==> {
            let e = EntryView {
                id: frame->Chat_id@,
                peer_addr: peer@,
                direction: Direction::Inbound,
                body: frame->Chat_body@,
                at_ms: now_ms,
            };
            &&& final(state).history_view() == capped(old(state).history_view().push(e))
            &&& r.message matches Some(m) && m@ == e
        },
        !(frame is Chat) ==> final(state).history_view() == old(state).history_view()
            && r.message is None,
        r.peers_changed == (frame is Hello || frame is Presence),
        is_dispatched(frame) ==> r.dispatch == Some(frame) && r.replies@.len() == 0,
        !is_dispatched(frame) ==> r.dispatch is None,
        frame is Hello ==> {
            &&& r.replies@.len() == 2
            &&& r.replies@[0] matches ChatProtocol::Hello { name, app_version: v, sent_at_ms }
                && name@ == match old(state).self_name_view() {
                Some(n) => n,
                None => "Abyss user"@,
            } && v@ == app_version@ && sent_at_ms == now_ms
            &&& r.replies@[1] matches ChatProtocol::Presence { status, activity, sent_at_ms }
                && (status, opt_chars(activity)) == old(state).presence_view() && sent_at_ms
                == now_ms
        },
        frame is Ping ==> r.replies@ == seq![ChatProtocol::Pong { sent_at_ms: frame->Ping_sent_at_ms }],
        (frame is Chat || frame is Presence || frame is Pong) ==> r.replies@.len() == 0,
{
    let mut replies: Vec<ChatProtocol> = Vec::new();
    match frame {
        ChatProtocol::Hello { name, app_version: _, sent_at_ms: _ } => {
            let ghost nm = name;
            let mut u = touch(now_ms);
            u.display_name = Some(Some(name));
            state.upsert_peer(peer, u);
            let (status, activity) = state.presence();
            replies.push(
                ChatProtocol::Hello {
                    name: state.self_name(),
                    app_version: owned(app_version),
                    sent_at_ms: now_ms,
                },
            );
            replies.push(ChatProtocol::Presence { status, activity, sent_at_ms: now_ms });
            FrameOutcome { replies, peers_changed: true, message: None, dispatch: None }
        },
        ChatProtocol::Chat { id, body, sent_at_ms: _ } => {
            let entry = ChatHistoryEntry {
                id,
                peer_addr: owned(peer),
                direction: Direction::Inbound,
                body,
                at_ms: now_ms,
            };
            let stored = state.append_history(entry);
            state.upsert_peer(peer, touch(now_ms));
            FrameOutcome { replies, peers_changed: false, message: Some(stored), dispatch: None }
        },
        ChatProtocol::Presence { status, activity, sent_at_ms: _ } => {
            let mut u = touch(now_ms);
            u.presence = Some(Some(status));
            u.activity = Some(activity);
            state.upsert_peer(peer, u);
            FrameOutcome { replies, peers_changed: true, message: None, dispatch: None }
        },
        ChatProtocol::Ping { sent_at_ms } => {
            replies.push(ChatProtocol::Pong { sent_at_ms });
            FrameOutcome { replies, peers_changed: false, message: None, dispatch: None }
        },
        ChatProtocol::Pong { sent_at_ms: _ } => {
            state.upsert_peer(peer, touch(now_ms));
            FrameOutcome { replies, peers_changed: false, message: None, dispatch: None }
        },
        other => FrameOutcome { replies, peers_changed: false, message: None, dispatch: Some(other) },
    }
}

/// A short message id: the timestamp in nanoseconds and a per-process
/// counter, both in lower-case hex, joined by `-`.
pub fn short_id(nanos: u128, counter: u64) -> (r: String)
    ensures
        r@ == digits(nanos as nat, 16) + "-"@ + digits(counter as nat, 16),
{
    let mut v: Vec<char> = Vec::new();
    push_hex(&mut v, nanos);
    extend_str(&mut v, "-");
    push_hex(&mut v, counter as u128);
    string_of(v.as_slice())
}

/// What a frame that refreshes a peer does to the record of a peer already
/// known at index `j`: the record stays where it is, its last-seen time
/// becomes the arrival time, a `Presence` frame sets its presence and
/// activity to the frame's, a `Hello` sets its display name to the frame's
/// name, and nothing else changes; every other peer is untouched.
pub proof fn lemma_frame_updates_known_peer(
    pv: Seq<(Seq<char>, PeerView)>,
    peer: Seq<char>,
    frame: ChatProtocol,
    now_ms: i64,
    j: int,
)
    requires
        touches_peer(frame),
        crate::chat::state::distinct_addrs(pv),
        0 <= j < pv.len(),
        pv[j].0 == peer,
    ensures
        ({
            let res = peers_upserted(pv, peer, frame_update(frame, now_ms));
            &&& res.len() == pv.len()
            &&& forall|k: int| 0 <= k < pv.len() && k != j ==> #[trigger] res[k] == pv[k]
            &&& res[j].0 == peer
            &&& res[j].1.last_seen_ms == Some(now_ms)
            &&& res[j].1.connected == pv[j].1.connected
            &&& frame is Presence ==> res[j].1.presence == Some(frame->Presence_status)
                && res[j].1.activity == opt_chars(frame->Presence_activity)
                && res[j].1.display_name == pv[j].1.display_name
            &&& frame is Hello ==> res[j].1.display_name == Some(frame->Hello_name@)
                && res[j].1.presence == pv[j].1.presence && res[j].1.activity == pv[j].1.activity
            &&& (frame is Chat || frame is Pong) ==> res[j].1.display_name == pv[j].1.display_name
                && res[j].1.presence == pv[j].1.presence && res[j].1.activity == pv[j].1.activity
        }),
{
    crate::chat::state::lemma_peer_index(pv, peer);
    let i = crate::chat::state::peer_index(pv, peer)->0;
    assert(i == j);
}

/// What a frame that refreshes a peer does when the peer is new: one
/// record is appended for it, last seen at the arrival time and not
/// connected, with the frame's presence and activity for `Presence`, the
/// frame's name for `Hello`, and nothing else set; earlier peers are
/// untouched.
pub proof fn lemma_frame_adds_new_peer(
    pv: Seq<(Seq<char>, PeerView)>,
    peer: Seq<char>,
    frame: ChatProtocol,
    now_ms: i64,
)
    requires
        touches_peer(frame),
        forall|k: int| 0 <= k < pv.len() ==> (#[trigger] pv[k]).0 != peer,
    ensures
        ({
            let res = peers_upserted(pv, peer, frame_update(frame, now_ms));
            &&& res.len() == pv.len() + 1
            &&& forall|k: int| 0 <= k < pv.len() ==> #[trigger] res[k] == pv[k]
            &&& res.last().0 == peer
            &&& res.last().1.last_seen_ms == Some(now_ms)
            &&& !res.last().1.connected
            &&& res.last().1.presence == if frame is Presence {
                Some(frame->Presence_status)
            } else {
                None
            }
            &&& res.last().1.activity == if frame is Presence {
                opt_chars(frame->Presence_activity)
            } else {
                None
            }
            &&& res.last().1.display_name == if frame is Hello {
                Some(frame->Hello_name@)
            } else {
                None
            }
        }),
{
    crate::chat::state::lemma_peer_index(pv, peer);
    if crate::chat::state::peer_index(pv, peer) is Some {
        let i = crate::chat::state::peer_index(pv, peer)->0;
        assert(pv[i].0 == peer);
    }
}

/// Which frames concern the chat itself: `Hello`, `Chat`, `Presence` and
/// `Pong` refresh the sending peer's record, `Ping` only gets a `Pong`
/// back, and every other frame is handed to another subsystem.
pub proof fn lemma_frame_kinds(f: ChatProtocol)
    ensures
        touches_peer(f) <==> (f is Hello || f is Chat || f is Presence || f is Pong),
        is_dispatched(f) <==> !(f is Hello || f is Chat || f is Presence || f is Ping || f is Pong),
        f is Ping ==> !touches_peer(f) && !is_dispatched(f),
{
}

} // verus!

//! In-memory chat state: the message history (newest last, capped), the
//! peers heard from, our display name and our presence. The host
//! application keeps one instance behind a lock, together with the
//! listener task and the per-peer send channels.

use vstd::prelude::*;

use crate::chat::types::{
    snapshot_view, ChatHistoryEntry, Direction, EntryView, PeerSnapshot, PeerView,
    PresenceStatus,
};
use crate::text::{copy_string, opt_chars, owned, str_eq};

verus! {

/// Most history entries kept; older ones are dropped first.
pub const HISTORY_CAP: usize = 1000;

/// What is known of one peer.
#[derive(Debug, Clone)]
pub struct PeerSlot {
    pub display_name: Option<String>,
    pub last_seen_ms: Option<i64>,
    pub presence: Option<PresenceStatus>,
    pub activity: Option<String>,
    /// A live writer for the peer exists.
    pub connected: bool,
}

pub open spec fn slot_view(s: PeerSlot) -> PeerView {
    PeerView {
        display_name: opt_chars(s.display_name),
        connected: s.connected,
        presence: s.presence,
        activity: opt_chars(s.activity),
        last_seen_ms: s.last_seen_ms,
    }
}

/// A peer nothing is known of yet.
pub open spec fn empty_peer() -> PeerView {
    PeerView {
        display_name: None,
        connected: false,
        presence: None,
        activity: None,
        last_seen_ms: None,
    }
}

/// Changes to a peer slot: each field that is `Some` is set to its value.
#[derive(Debug, Clone)]
pub struct PeerUpdate {
    pub display_name: Option<Option<String>>,
    pub last_seen_ms: Option<Option<i64>>,
    pub presence: Option<Option<PresenceStatus>>,
    pub activity: Option<Option<String>>,
    pub connected: Option<bool>,
}

pub open spec fn opt_opt_chars(o: Option<Option<String>>) -> Option<Option<Seq<char>>> {
    match o {
        Some(x) => Some(opt_chars(x)),
        None => None,
    }
}

/// A peer's record after an update.
pub open spec fn patched(v: PeerView, u: PeerUpdate) -> PeerView {
    PeerView {
        display_name: match opt_opt_chars(u.display_name) {
            Some(x) => x,
            None => v.display_name,
        },
        connected: match u.connected {
            Some(x) => x,
            None => v.connected,
        },
        presence: match u.presence {
            Some(x) => x,
            None => v.presence,
        },
        activity: match opt_opt_chars(u.activity) {
            Some(x) => x,
            None => v.activity,
        },
        last_seen_ms: match u.last_seen_ms {
            Some(x) => x,
            None => v.last_seen_ms,
        },
    }
}

impl PeerUpdate {
    /// An update that changes nothing.
    pub fn none() -> (r: Self)
        ensures
            r.display_name is None,
            r.last_seen_ms is None,
            r.presence is None,
            r.activity is None,
            r.connected is None,
    {
        PeerUpdate {
            display_name: None,
            last_seen_ms: None,
            presence: None,
            activity: None,
            connected: None,
        }
    }
}

/// The history after appending to `h`: only the newest `HISTORY_CAP`
/// entries are kept.
pub open spec fn capped<T>(h: Seq<T>) -> Seq<T> {
    if h.len() > HISTORY_CAP {
        h.skip(h.len() - HISTORY_CAP)
    } else {
        h
    }
}

/// The entries exchanged with one peer, in order.
pub open spec fn filter_peer(h: Seq<EntryView>, peer: Seq<char>) -> Seq<EntryView>
    decreases h.len(),
{
    if h.len() == 0 {
        Seq::empty()
    } else if h.last().peer_addr == peer {
        filter_peer(h.drop_last(), peer).push(h.last())
    } else {
        filter_peer(h.drop_last(), peer)
    }
}

/// Index of the peer with the given address.
pub open spec fn peer_index(pv: Seq<(Seq<char>, PeerView)>, addr: Seq<char>) -> Option<int>
    decreases pv.len(),
{
    if pv.len() == 0 {
        None
    } else if pv.last().0 == addr {
        Some(pv.len() - 1)
    } else {
        peer_index(pv.drop_last(), addr)
    }
}

pub proof fn lemma_peer_index(pv: Seq<(Seq<char>, PeerView)>, addr: Seq<char>)
    ensures
        peer_index(pv, addr) matches Some(i) ==> 0 <= i < pv.len() && pv[i].0 == addr,
        peer_index(pv, addr) is None ==> forall|j: int| 0 <= j < pv.len() ==> pv[j].0 != addr,
    decreases pv.len(),
{
    if pv.len() > 0 {
        lemma_peer_index(pv.drop_last(), addr);
        assert forall|j: int| 0 <= j < pv.len() - 1 implies pv[j] == pv.drop_last()[j] by {}
    }
}

/// The peers after creating `addr` if it is new and applying `u` to it.
pub open spec fn peers_upserted(
    pv: Seq<(Seq<char>, PeerView)>,
    addr: Seq<char>,
    u: PeerUpdate,
) -> Seq<(Seq<char>, PeerView)> {
    match peer_index(pv, addr) {
        Some(i) => pv.update(i, (addr, patched(pv[i].1, u))),
        None => pv.push((addr, patched(empty_peer(), u))),
    }
}

/// No two peers share an address.
pub open spec fn distinct_addrs(pv: Seq<(Seq<char>, PeerView)>) -> bool {
    forall|i: int, j: int| 0 <= i < pv.len() && 0 <= j < pv.len() && i != j ==> pv[i].0 != pv[j].0
}

/// The chat state of this node.
pub struct ChatState {
    history: Vec<ChatHistoryEntry>,
    peers: Vec<(String, PeerSlot)>,
    self_name: Option<String>,
    presence: PresenceStatus,
    activity: Option<String>,
}

fn copy_opt(o: &Option<String>) -> (r: Option<String>)
    ensures
        opt_chars(r) == opt_chars(*o),
{
    match o {
        Some(s) => Some(copy_string(s)),
        None => None,
    }
}

/// A copy of a history entry.
pub fn copy_entry(e: &ChatHistoryEntry) -> (r: ChatHistoryEntry)
    ensures
        r@ == e@,
{
    ChatHistoryEntry {
        id: copy_string(&e.id),
        peer_addr: copy_string(&e.peer_addr),
        direction: e.direction,
        body: copy_string(&e.body),
        at_ms: e.at_ms,
    }
}

fn patch_slot(s: &mut PeerSlot, u: PeerUpdate)
    ensures
        slot_view(*final(s)) == patched(slot_view(*old(s)), u),
{
    match u.display_name {
        Some(x) => {
            s.display_name = x;
        },
        None => {},
    }
    match u.last_seen_ms {
        Some(x) => {
            s.last_seen_ms = x;
        },
        None => {},
    }
    match u.presence {
        Some(x) => {
            s.presence = x;
        },
        None => {},
    }
    match u.activity {
        Some(x) => {
            s.activity = x;
        },
        None => {},
    }
    match u.connected {
        Some(x) => {
            s.connected = x;
        },
        None => {},
    }
}

impl ChatState {
    /// The message history, oldest first.
    pub closed spec fn history_view(&self) -> Seq<EntryView> {
        self.history@.map_values(|e: ChatHistoryEntry| e@)
    }

    /// The peers, each with its address, in the order first heard from.
    pub closed spec fn peers_view(&self) -> Seq<(Seq<char>, PeerView)> {
        self.peers@.map_values(|p: (String, PeerSlot)| (p.0@, slot_view(p.1)))
    }

    /// Our display name, if set.
    pub closed spec fn self_name_view(&self) -> Option<Seq<char>> {
        opt_chars(self.self_name)
    }

    /// Our presence and activity.
    pub closed spec fn presence_view(&self) -> (PresenceStatus, Option<Seq<char>>) {
        (self.presence, opt_chars(self.activity))
    }

    /// The history is within its cap and peers are keyed uniquely.
    pub closed spec fn wf(&self) -> bool {
        &&& self.history@.len() <= HISTORY_CAP
        &&& distinct_addrs(self.peers_view())
    }

    /// Well-formed states key their peers uniquely.
    pub proof fn lemma_wf_distinct(&self)
        requires
            self.wf(),
        ensures
            distinct_addrs(self.peers_view()),
    {
    }

    /// An empty state: no history, no peers, no name, idle.
    pub fn new() -> (r: Self)
        ensures
            r.wf(),
            r.history_view() == Seq::<EntryView>::empty(),
            r.peers_view() == Seq::<(Seq<char>, PeerView)>::empty(),
            r.self_name_view() is None,
            r.presence_view() == (PresenceStatus::Idle, None::<Seq<char>>),
    {
        let r = ChatState {
            history: Vec::new(),
            peers: Vec::new(),
            self_name: None,
            presence: PresenceStatus::Idle,
            activity: None,
        };
        assert(r.history_view() =~= Seq::<EntryView>::empty());
        assert(r.peers_view() =~= Seq::<(Seq<char>, PeerView)>::empty());
        r
    }

    /// Append a message; when the history exceeds its cap the oldest
    /// entries are dropped. Returns the stored entry.
    pub fn append_history(&mut self, entry: ChatHistoryEntry) -> (r: ChatHistoryEntry)
        requires
            old(self).wf(),
        ensures
            final(self).wf(),
            r@ == entry@,
            final(self).history_view() == capped(old(self).history_view().push(entry@)),
            final(self).peers_view() == old(self).peers_view(),
            final(self).self_name_view() == old(self).self_name_view(),
            final(self).presence_view() == old(self).presence_view(),
    {
        let stored = copy_entry(&entry);
        let ghost before = self.history_view();
        self.history.push(entry);
        let ghost pushed = self.history@;
        assert(self.history_view() =~= before.push(entry@));
        let n = self.history.len();
        if n > HISTORY_CAP {
            let mut old_h: Vec<ChatHistoryEntry> = Vec::new();
            std::mem::swap(&mut old_h, &mut self.history);
            assert(old_h@ == pushed);
            let mut rev: Vec<ChatHistoryEntry> = Vec::new();
            while rev.len() < HISTORY_CAP
                invariant
                    n == pushed.len(),
                    n > HISTORY_CAP,
                    rev@.len() <= HISTORY_CAP,
                    old_h@.len() + rev@.len() == n,
                    old_h@ == pushed.take(old_h@.len() as int),
                    forall|k: int| 0 <= k < rev@.len() ==> rev@[k] == pushed[n - 1 - k],
                decreases HISTORY_CAP - rev@.len(),
            {
                let x = old_h.pop().unwrap();
                rev.push(x);
                assert(old_h@ =~= pushed.take(old_h@.len() as int));
            }
            let mut kept: Vec<ChatHistoryEntry> = Vec::new();
            while rev.len() > 0
                invariant
                    n == pushed.len(),
                    n > HISTORY_CAP,
                    rev@.len() + kept@.len() == HISTORY_CAP,
                    forall|k: int| 0 <= k < rev@.len() ==> rev@[k] == pushed[n - 1 - k],
                    forall|k: int|
                        0 <= k < kept@.len() ==> kept@[k] == pushed[n - HISTORY_CAP + k],
                decreases rev@.len(),
            {
                let ghost kb = kept@;
                let x = rev.pop().unwrap();
                kept.push(x);
                assert forall|k: int| 0 <= k < kept@.len() implies kept@[k] == pushed[n
                    - HISTORY_CAP + k] by {
                    if k < kb.len() {
                        assert(kept@[k] == kb[k]);
                    }
                }
            }
            assert(kept@ =~= pushed.skip(n - HISTORY_CAP));
            self.history = kept;
        }
        assert(self.history_view() =~= capped(before.push(entry@)));
        stored
    }

    /// The history, or only the messages exchanged with `peer`.
    pub fn history_for(&self, peer: Option<&str>) -> (r: Vec<ChatHistoryEntry>)
        ensures
            r@.map_values(|e: ChatHistoryEntry| e@) == match peer {
                Some(p) => filter_peer(self.history_view(), p@),
                None => self.history_view(),
            },
    {
        let ghost hv = self.history_view();
        let mut out: Vec<ChatHistoryEntry> = Vec::new();
        let mut i: usize = 0;
        while i < self.history.len()
            invariant
                i <= self.history@.len(),
                hv == self.history_view(),
                out@.map_values(|e: ChatHistoryEntry| e@) == match peer {
                    Some(p) => filter_peer(hv.take(i as int), p@),
                    None => hv.take(i as int),
                },
            decreases self.history.len() - i,
        {
            let e = &self.history[i];
            assert(hv.take(i + 1).drop_last() =~= hv.take(i as int));
            assert(hv.take(i + 1).last() == e@);
            let keep = match peer {
                Some(p) => str_eq(e.peer_addr.as_str(), p),
                None => true,
            };
            let ghost before = out@.map_values(|e: ChatHistoryEntry| e@);
            if keep {
                out.push(copy_entry(e));
                assert(out@.map_values(|e: ChatHistoryEntry| e@) =~= before.push(e@));
            }
            i += 1;
        }
        assert(hv.take(hv.len() as int) =~= hv);
        out
    }

    fn find_peer(&self, addr: &str) -> (r: Option<usize>)
        requires
            self.wf(),
        ensures
            r matches Some(j) ==> peer_index(self.peers_view(), addr@) == Some(j as int) && j
                < self.peers@.len(),
            r is None ==> peer_index(self.peers_view(), addr@) is None,
    {
        let ghost pv = self.peers_view();
        proof {
            lemma_peer_index(pv, addr@);
        }
        let mut i: usize = 0;
        while i < self.peers.len()
            invariant
                i <= self.peers@.len(),
                pv == self.peers_view(),
                distinct_addrs(pv),
                forall|j: int| 0 <= j < i ==> pv[j].0 != addr@,
                peer_index(pv, addr@) matches Some(k) ==> 0 <= k < pv.len() && pv[k].0 == addr@,
                peer_index(pv, addr@) is None ==> forall|j: int| 0 <= j < pv.len() ==> pv[j].0 != addr@,
            decreases self.peers.len() - i,
        {
            assert(pv[i as int].0 == self.peers@[i as int].0@);
            if str_eq(self.peers[i].0.as_str(), addr) {
                proof {
                    match peer_index(pv, addr@) {
                        Some(k) => {
                            if k < i {
                                assert(pv[k].0 != addr@);
                            } else if k > i {
                                assert(pv[i as int].0 != pv[k].0);
                            }
                        },
                        None => {},
                    }
                }
                return Some(i);
            }
            i += 1;
        }
        None
    }

    /// Create the peer if it is new, then apply `update` to it.
    pub fn upsert_peer(&mut self, addr: &str, update: PeerUpdate)
        requires
            old(self).wf(),
        ensures
            final(self).wf(),
            final(self).peers_view() == peers_upserted(old(self).peers_view(), addr@, update),
            final(self).history_view() == old(self).history_view(),
            final(self).self_name_view() == old(self).self_name_view(),
            final(self).presence_view() == old(self).presence_view(),
    {
        let ghost pv = self.peers_view();
        proof {
            lemma_peer_index(pv, addr@);
        }
        match self.find_peer(addr) {
            Some(i) => {
                proof {
                    match peer_index(pv, addr@) {
                        Some(k) => {
                            assert(k == i as int);
                            assert(pv[k].0 == addr@);
                        },
                        None => {
                            assert(false);
                        },
                    }
                }
                assert(pv[i as int] == (self.peers@[i as int].0@, slot_view(self.peers@[i as int].1)));
                let cur = &self.peers[i].1;
                let mut s2 = PeerSlot {
                    display_name: copy_opt(&cur.display_name),
                    last_seen_ms: cur.last_seen_ms,
                    presence: cur.presence,
                    activity: copy_opt(&cur.activity),
                    connected: cur.connected,
                };
                assert(slot_view(s2) == pv[i as int].1);
                patch_slot(&mut s2, update);
                let key = copy_string(&self.peers[i].0);
                assert(key@ == addr@);
                self.peers.set(i, (key, s2));
                assert(self.peers_view() =~= pv.update(
                    i as int,
                    (addr@, patched(pv[i as int].1, update)),
                ));
                assert forall|a: int, b: int|
                    0 <= a < self.peers_view().len() && 0 <= b < self.peers_view().len() && a
                        != b implies self.peers_view()[a].0 != self.peers_view()[b].0 by {
                    assert(self.peers_view()[a].0 == pv[a].0);
                    assert(self.peers_view()[b].0 == pv[b].0);
                }
            },
            None => {
                let mut slot = PeerSlot {
                    display_name: None,
                    last_seen_ms: None,
                    presence: None,
                    activity: None,
                    connected: false,
                };
                assert(slot_view(slot) == empty_peer());
                patch_slot(&mut slot, update);
                self.peers.push((owned(addr), slot));
                assert(self.peers_view() =~= pv.push((addr@, patched(empty_peer(), update))));
                assert forall|a: int, b: int|
                    0 <= a < self.peers_view().len() && 0 <= b < self.peers_view().len() && a
                        != b implies self.peers_view()[a].0 != self.peers_view()[b].0 by {
                    if a < pv.len() && b < pv.len() {
                        assert(self.peers_view()[a] == pv[a]);
                        assert(self.peers_view()[b] == pv[b]);
                    } else if a < pv.len() {
                        assert(self.peers_view()[a] == pv[a]);
                    } else {
                        assert(self.peers_view()[b] == pv[b]);
                    }
                }
            },
        }
    }

    /// Mark the peer's connection as gone (its writer ended).
    pub fn clear_peer_sender(&mut self, addr: &str)
        requires
            old(self).wf(),
        ensures
            final(self).wf(),
            match peer_index(old(self).peers_view(), addr@) {
                Some(i) => final(self).peers_view() == old(self).peers_view().update(
                    i,
                    (addr@, PeerView { connected: false, ..old(self).peers_view()[i].1 }),
                ),
                None => final(self).peers_view() == old(self).peers_view(),
            },
            final(self).history_view() == old(self).history_view(),
            final(self).self_name_view() == old(self).self_name_view(),
            final(self).presence_view() == old(self).presence_view(),
    {
        let ghost pv = self.peers_view();
        proof {
            lemma_peer_index(pv, addr@);
        }
        match self.find_peer(addr) {
            Some(i) => {
                let mut u = PeerUpdate::none();
                u.connected = Some(false);
                self.upsert_peer(addr, u);
                assert(patched(pv[i as int].1, u) == PeerView { connected: false, ..pv[i as int].1 });
            },
            None => {},
        }
    }

    /// Whether a live connection to the peer exists.
    pub fn peer_connected(&self, addr: &str) -> (r: bool)
        requires
            self.wf(),
        ensures
            r == match peer_index(self.peers_view(), addr@) {
                Some(i) => self.peers_view()[i].1.connected,
                None => false,
            },
    {
        proof {
            lemma_peer_index(self.peers_view(), addr@);
        }
        match self.find_peer(addr) {
            Some(i) => {
                assert(self.peers_view()[i as int] == (self.peers@[i as int].0@, slot_view(self.peers@[i as int].1)));
                assert(self.peers_view()[i as int].1.connected == self.peers@[i as int].1.connected);
                self.peers[i].1.connected
            },
            None => false,
        }
    }

    /// Snapshot of every peer.
    pub fn list_peers(&self) -> (r: Vec<PeerSnapshot>)
        ensures
            r@.map_values(|p: PeerSnapshot| snapshot_view(p)) == self.peers_view(),
    {
        let ghost pv = self.peers_view();
        let mut out: Vec<PeerSnapshot> = Vec::new();
        let mut i: usize = 0;
        while i < self.peers.len()
            invariant
                i <= self.peers@.len(),
                pv == self.peers_view(),
                out@.map_values(|p: PeerSnapshot| snapshot_view(p)) == pv.take(i as int),
            decreases self.peers.len() - i,
        {
            let (addr, slot) = &self.peers[i];
            let snap = PeerSnapshot {
                addr: copy_string(addr),
                display_name: copy_opt(&slot.display_name),
                connected: slot.connected,
                presence: slot.presence,
                activity: copy_opt(&slot.activity),
                last_seen_ms: slot.last_seen_ms,
            };
            let ghost before = out@.map_values(|p: PeerSnapshot| snapshot_view(p));
            assert(pv[i as int] == (self.peers@[i as int].0@, slot_view(self.peers@[i as int].1)));
            assert(snapshot_view(snap) == pv[i as int]);
            out.push(snap);
            assert(out@.map_values(|p: PeerSnapshot| snapshot_view(p)) =~= before.push(snapshot_view(snap)));
            assert(pv.take(i + 1) =~= pv.take(i as int).push(pv[i as int]));
            i += 1;
        }
        assert(pv.take(pv.len() as int) =~= pv);
        out
    }

    /// Mark every peer disconnected (the listener stopped and all writers
    /// were dropped).
    pub fn disconnect_all(&mut self)
        requires
            old(self).wf(),
        ensures
            final(self).wf(),
            final(self).peers_view().len() == old(self).peers_view().len(),
            forall|i: int|
                0 <= i < old(self).peers_view().len() ==> #[trigger] final(self).peers_view()[i]
                    == (old(self).peers_view()[i].0, PeerView {
                    connected: false,
                    ..old(self).peers_view()[i].1
                }),
            final(self).history_view() == old(self).history_view(),
            final(self).self_name_view() == old(self).self_name_view(),
            final(self).presence_view() == old(self).presence_view(),
    {
        let ghost pv = self.peers_view();
        let mut i: usize = 0;
        while i < self.peers.len()
            invariant
                i <= self.peers@.len(),
                self.peers@.len() == pv.len(),
                distinct_addrs(pv),
                self.history_view() == old(self).history_view(),
                self.self_name_view() == old(self).self_name_view(),
                self.presence_view() == old(self).presence_view(),
                self.history@.len() <= HISTORY_CAP,
                pv == old(self).peers_view(),
                forall|k: int|
                    0 <= k < pv.len() ==> #[trigger] self.peers_view()[k] == if k < i {
                        (pv[k].0, PeerView { connected: false, ..pv[k].1 })
                    } else {
                        pv[k]
                    },
            decreases self.peers.len() - i,
        {
            let ghost before = self.peers_view();
            let slot = PeerSlot {
                display_name: None,
                last_seen_ms: None,
                presence: None,
                activity: None,
                connected: false,
            };
            let mut entry = (String::new(), slot);
            std::mem::swap(&mut entry, &mut self.peers[i]);
            let ghost old_entry = entry;
            assert((old_entry.0@, slot_view(old_entry.1)) == before[i as int]);
            entry.1.connected = false;
            self.peers.set(i, entry);
            assert forall|k: int| 0 <= k < pv.len() implies #[trigger] self.peers_view()[k] == if k
                < i + 1 {
                (pv[k].0, PeerView { connected: false, ..pv[k].1 })
            } else {
                pv[k]
            } by {
                if k != i {
                    assert(self.peers_view()[k] == before[k]);
                }
            }
            i += 1;
        }
        assert forall|a: int, b: int|
            0 <= a < self.peers_view().len() && 0 <= b < self.peers_view().len() && a != b implies self.peers_view()[a].0
            != self.peers_view()[b].0 by {
            assert(self.peers_view()[a].0 == pv[a].0);
            assert(self.peers_view()[b].0 == pv[b].0);
        }
    }

    /// Set or clear our display name.
    pub fn set_self_name(&mut self, name: Option<String>)
        requires
            old(self).wf(),
        ensures
            final(self).wf(),
            final(self).self_name_view() == opt_chars(name),
            final(self).history_view() == old(self).history_view(),
            final(self).peers_view() == old(self).peers_view(),
            final(self).presence_view() == old(self).presence_view(),
    {
        self.self_name = name;
    }

    /// Our display name, `Abyss user` when none is set.
    pub fn self_name(&self) -> (r: String)
        ensures
            r@ == match self.self_name_view() {
                Some(n) => n,
                None => "Abyss user"@,
            },
    {
        match &self.self_name {
            Some(n) => copy_string(n),
            None => owned("Abyss user"),
        }
    }

    /// Set our presence and activity.
    pub fn set_presence(&mut self, status: PresenceStatus, activity: Option<String>)
        requires
            old(self).wf(),
        ensures
            final(self).wf(),
            final(self).presence_view() == (status, opt_chars(activity)),
            final(self).history_view() == old(self).history_view(),
            final(self).peers_view() == old(self).peers_view(),
            final(self).self_name_view() == old(self).self_name_view(),
    {
        self.presence = status;
        self.activity = activity;
    }

    /// Our presence and activity.
    pub fn presence(&self) -> (r: (PresenceStatus, Option<String>))
        ensures
            (r.0, opt_chars(r.1)) == self.presence_view(),
    {
        (self.presence, copy_opt(&self.activity))
    }
}

impl Default for ChatState {
    fn default() -> (r: Self)
        ensures
            r.wf(),
            r.history_view() == Seq::<EntryView>::empty(),
            r.peers_view() == Seq::<(Seq<char>, PeerView)>::empty(),
            r.self_name_view() is None,
            r.presence_view() == (PresenceStatus::Idle, None::<Seq<char>>),
    {
        ChatState::new()
    }
}

/// The history never holds more than `HISTORY_CAP` entries, and an
/// append always keeps the appended entry as the newest one.
pub proof fn lemma_history_capped<T>(h: Seq<T>, e: T)
    requires
        h.len() <= HISTORY_CAP,
    ensures
        capped(h.push(e)).len() <= HISTORY_CAP,
        capped(h.push(e)).len() == if h.len() < HISTORY_CAP { h.len() + 1 } else { HISTORY_CAP as nat },
        capped(h.push(e)).last() == e,
        h.len() == HISTORY_CAP ==> capped(h.push(e)) == h.drop_first().push(e),
{
    if h.len() == HISTORY_CAP {
        assert(h.push(e).skip(1) =~= h.drop_first().push(e));
    }
}

} // verus!

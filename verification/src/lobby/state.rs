//! The room this node is in. The host application keeps one instance
//! behind a lock, shared by the lobby commands and the chat frame handlers.

use vstd::prelude::*;

use crate::library::platform::Platform;
use crate::lobby::types::{member_view, members_view, no_room, snapshot_view, RoomMember, RoomRole, RoomSnapshot, RoomView};
use crate::text::{copy_string, opt_chars, owned, str_eq};

verus! {

pub type MemberView = (Seq<char>, Option<Seq<char>>);

/// Index of the member with the given address.
pub open spec fn member_index(ms: Seq<MemberView>, addr: Seq<char>) -> Option<int>
    decreases ms.len(),
{
    if ms.len() == 0 {
        None
    } else if ms[0].0 == addr {
        Some(0)
    } else {
        match member_index(ms.drop_first(), addr) {
            Some(i) => Some(i + 1),
            None => None,
        }
    }
}

pub proof fn lemma_member_index(ms: Seq<MemberView>, addr: Seq<char>)
    ensures
        member_index(ms, addr) matches Some(i) ==> 0 <= i < ms.len() && ms[i].0 == addr && forall|j: int|
            0 <= j < i ==> ms[j].0 != addr,
        member_index(ms, addr) is None ==> forall|j: int| 0 <= j < ms.len() ==> ms[j].0 != addr,
    decreases ms.len(),
{
    if ms.len() > 0 {
        lemma_member_index(ms.drop_first(), addr);
        assert forall|j: int| 1 <= j < ms.len() implies ms[j] == ms.drop_first()[j - 1] by {}
    }
}

/// No two members share an address.
pub open spec fn distinct_members(ms: Seq<MemberView>) -> bool {
    forall|i: int, j: int| 0 <= i < ms.len() && 0 <= j < ms.len() && i != j ==> ms[i].0 != ms[j].0
}

/// The members after an add, and whether anything changed: a new address
/// is appended; a known one takes the new display name if it differs.
pub open spec fn added(ms: Seq<MemberView>, addr: Seq<char>, name: Option<Seq<char>>) -> (
    Seq<MemberView>,
    bool,
) {
    match member_index(ms, addr) {
        Some(i) => if ms[i].1 != name {
            (ms.update(i, (addr, name)), true)
        } else {
            (ms, false)
        },
        None => (ms.push((addr, name)), true),
    }
}

/// The members without the given address.
pub open spec fn without(ms: Seq<MemberView>, addr: Seq<char>) -> Seq<MemberView>
    decreases ms.len(),
{
    if ms.len() == 0 {
        Seq::empty()
    } else if ms.last().0 == addr {
        without(ms.drop_last(), addr)
    } else {
        without(ms.drop_last(), addr).push(ms.last())
    }
}

/// The room of this node.
pub struct LobbyState {
    role: Option<RoomRole>,
    host_addr: Option<String>,
    host_name: Option<String>,
    platform: Option<Platform>,
    game_name: Option<String>,
    members: Vec<RoomMember>,
}

fn copy_opt(o: &Option<String>) -> (r: Option<String>)
    ensures
        opt_chars(r) == opt_chars(*o),
{
    match o {
        Some(s) => Some(copy_string(s)),
        None => None,
    }
}

/// A copy of a member list.
pub fn copy_members(ms: &Vec<RoomMember>) -> (r: Vec<RoomMember>)
    ensures
        members_view(r@) == members_view(ms@),
{
    let mut out: Vec<RoomMember> = Vec::new();
    let mut i: usize = 0;
    while i < ms.len()
        invariant
            i <= ms@.len(),
            members_view(out@) == members_view(ms@).take(i as int),
        decreases ms.len() - i,
    {
        let m = RoomMember { addr: copy_string(&ms[i].addr), display_name: copy_opt(&ms[i].display_name) };
        let ghost before = out@;
        out.push(m);
        assert(members_view(out@) =~= members_view(before).push(member_view(m)));
        assert(members_view(ms@).take(i + 1) =~= members_view(ms@).take(i as int).push(member_view(ms@[i as int])));
        i += 1;
    }
    assert(members_view(ms@).take(ms@.len() as int) =~= members_view(ms@));
    out
}

impl LobbyState {
    /// The room, as plain values.
    pub closed spec fn view(&self) -> RoomView {
        RoomView {
            role: self.role,
            host_addr: opt_chars(self.host_addr),
            host_name: opt_chars(self.host_name),
            platform: self.platform,
            game_name: opt_chars(self.game_name),
            members: members_view(self.members@),
        }
    }

    /// Members are keyed by address, and a room (a platform and a game)
    /// exists exactly when we host or joined one.
    pub closed spec fn wf(&self) -> bool {
        &&& distinct_members(members_view(self.members@))
        &&& (self.role is Some <==> (self.platform is Some && self.game_name is Some))
    }

    /// A room exists exactly when a role is set: in every state the room
    /// operations reach, `current_room` is `Some` exactly when the
    /// snapshot's role is.
    pub proof fn lemma_room_iff_role(&self)
        requires
            self.wf(),
        ensures
            (self.view().platform is Some && self.view().game_name is Some) <==> self.view().role is Some,
    {
    }

    /// The room we host names its platform and game.
    pub proof fn lemma_host_has_room(&self)
        requires
            self.wf(),
        ensures
            self.view().role == Some(RoomRole::Host) ==> self.view().platform is Some
                && self.view().game_name is Some,
    {
    }

    /// Not in any room.
    pub fn new() -> (r: Self)
        ensures
            r.wf(),
            r.view() == no_room(),
    {
        let r = LobbyState {
            role: None,
            host_addr: None,
            host_name: None,
            platform: None,
            game_name: None,
            members: Vec::new(),
        };
        assert(members_view(r.members@) =~= Seq::<MemberView>::empty());
        r
    }

    /// A copy of the room for the UI.
    pub fn snapshot(&self) -> (r: RoomSnapshot)
        ensures
            snapshot_view(r) == self.view(),
    {
        RoomSnapshot {
            role: self.role,
            host_addr: copy_opt(&self.host_addr),
            host_name: copy_opt(&self.host_name),
            platform: self.platform,
            game_name: copy_opt(&self.game_name),
            members: copy_members(&self.members),
        }
    }

    /// Start hosting `game_name` on `platform`, with no members yet.
    pub fn become_host(&mut self, platform: Platform, game_name: String, host_name: String)
        ensures
            final(self).wf(),
            final(self).view() == (RoomView {
                role: Some(RoomRole::Host),
                host_addr: Some("self"@),
                host_name: Some(host_name@),
                platform: Some(platform),
                game_name: Some(game_name@),
                members: Seq::empty(),
            }),
    {
        self.role = Some(RoomRole::Host);
        self.host_addr = Some(owned("self"));
        self.host_name = Some(host_name);
        self.platform = Some(platform);
        self.game_name = Some(game_name);
        self.members = Vec::new();
        assert(members_view(self.members@) =~= Seq::<MemberView>::empty());
    }

    /// Join the room hosted at `host_addr`.
    pub fn become_member(
        &mut self,
        host_addr: String,
        host_name: Option<String>,
        platform: Platform,
        game_name: String,
    )
        ensures
            final(self).wf(),
            final(self).view() == (RoomView {
                role: Some(RoomRole::Member),
                host_addr: Some(host_addr@),
                host_name: opt_chars(host_name),
                platform: Some(platform),
                game_name: Some(game_name@),
                members: Seq::empty(),
            }),
    {
        self.role = Some(RoomRole::Member);
        self.host_addr = Some(host_addr);
        self.host_name = host_name;
        self.platform = Some(platform);
        self.game_name = Some(game_name);
        self.members = Vec::new();
        assert(members_view(self.members@) =~= Seq::<MemberView>::empty());
    }

    /// Leave every room.
    pub fn clear(&mut self)
        ensures
            final(self).wf(),
            final(self).view() == no_room(),
    {
        *self = LobbyState::new();
    }

    /// Add a member, or update a known member's display name. Returns
    /// whether the membership changed, so the caller knows whether to
    /// re-broadcast.
    pub fn add_member(&mut self, addr: &str, display_name: Option<String>) -> (r: bool)
        requires
            old(self).wf(),
        ensures
            final(self).wf(),
            (final(self).view().members, r) == added(
                old(self).view().members,
                addr@,
                opt_chars(display_name),
            ),
            final(self).view() == (RoomView { members: final(self).view().members, ..old(self).view() }),
    {
        let ghost ms = members_view(self.members@);
        proof {
            lemma_member_index(ms, addr@);
        }
        let mut i: usize = 0;
        while i < self.members.len()
            invariant
                i <= self.members@.len(),
                ms == members_view(self.members@),
                ms == old(self).view().members,
                self.view() == old(self).view(),
                self.role is Some <==> (self.platform is Some && self.game_name is Some),
                distinct_members(ms),
                forall|j: int| 0 <= j < i ==> ms[j].0 != addr@,
            decreases self.members.len() - i,
        {
            assert(ms[i as int] == member_view(self.members@[i as int]));
            if str_eq(self.members[i].addr.as_str(), addr) {
                assert(member_index(ms, addr@) == Some(i as int)) by {
                    lemma_member_index(ms, addr@);
                    match member_index(ms, addr@) {
                        Some(k) => {
                            if k < i {
                                assert(ms[k].0 != addr@);
                            } else if k > i {
                                assert(ms[i as int].0 != addr@);
                            }
                        },
                        None => {
                            assert(ms[i as int].0 != addr@);
                        },
                    }
                }
                let same = match (&self.members[i].display_name, &display_name) {
                    (Some(a), Some(b)) => str_eq(a.as_str(), b.as_str()),
                    (None, None) => true,
                    _ => false,
                };
                if !same {
                    let m = RoomMember { addr: owned(addr), display_name };
                    self.members.set(i, m);
                    assert(members_view(self.members@) =~= ms.update(i as int, (addr@, opt_chars(display_name))));
                    assert forall|a: int, b: int|
                        0 <= a < ms.len() && 0 <= b < ms.len() && a != b implies members_view(self.members@)[a].0
                        != members_view(self.members@)[b].0 by {
                        assert(members_view(self.members@)[a].0 == ms[a].0);
                        assert(members_view(self.members@)[b].0 == ms[b].0);
                    }
                    return true;
                }
                return false;
            }
            i += 1;
        }
        assert(member_index(ms, addr@) is None) by {
            lemma_member_index(ms, addr@);
        }
        let m = RoomMember { addr: owned(addr), display_name };
        self.members.push(m);
        assert(members_view(self.members@) =~= ms.push((addr@, opt_chars(display_name))));
        assert forall|a: int, b: int|
            0 <= a < ms.len() + 1 && 0 <= b < ms.len() + 1 && a != b implies members_view(self.members@)[a].0
            != members_view(self.members@)[b].0 by {
            if a < ms.len() {
                assert(members_view(self.members@)[a] == ms[a]);
            }
            if b < ms.len() {
                assert(members_view(self.members@)[b] == ms[b]);
            }
        }
        true
    }

    /// Drop the member with this address. Returns whether one was there.
    pub fn remove_member(&mut self, addr: &str) -> (r: bool)
        requires
            old(self).wf(),
        ensures
            final(self).wf(),
            final(self).view().members == without(old(self).view().members, addr@),
            r == (member_index(old(self).view().members, addr@) is Some),
            final(self).view() == (RoomView { members: final(self).view().members, ..old(self).view() }),
    {
        let ghost ms = members_view(self.members@);
        proof {
            lemma_member_index(ms, addr@);
        }
        let mut old_members: Vec<RoomMember> = Vec::new();
        std::mem::swap(&mut old_members, &mut self.members);
        let mut kept: Vec<RoomMember> = Vec::new();
        let mut found = false;
        let mut i: usize = 0;
        while i < old_members.len()
            invariant
                i <= old_members@.len(),
                ms == members_view(old_members@),
                members_view(kept@) == without(ms.take(i as int), addr@),
                found == exists|j: int| 0 <= j < i && ms[j].0 == addr@,
                forall|a: int| 0 <= a < kept@.len() ==> exists|j: int| 0 <= j < i && #[trigger] members_view(kept@)[a] == ms[j],
                distinct_members(members_view(kept@)),
                distinct_members(ms),
            decreases old_members.len() - i,
        {
            assert(ms.take(i + 1).drop_last() =~= ms.take(i as int));
            assert(ms.take(i + 1).last() == ms[i as int]);
            assert(ms[i as int] == member_view(old_members@[i as int]));
            let ghost before = kept@;
            if str_eq(old_members[i].addr.as_str(), addr) {
                found = true;
            } else {
                let m = RoomMember {
                    addr: copy_string(&old_members[i].addr),
                    display_name: copy_opt(&old_members[i].display_name),
                };
                kept.push(m);
                assert(members_view(kept@) =~= members_view(before).push(ms[i as int]));
                assert forall|a: int| 0 <= a < kept@.len() implies exists|j: int| 0 <= j < i + 1 && #[trigger] members_view(kept@)[a] == ms[j] by {
                    if a < before.len() {
                        assert(members_view(kept@)[a] == members_view(before)[a]);
                        let j = choose|j: int| 0 <= j < i && #[trigger] members_view(before)[a] == ms[j];
                    } else {
                        assert(members_view(kept@)[a] == ms[i as int]);
                    }
                }
                assert forall|a: int, b: int|
                    0 <= a < kept@.len() && 0 <= b < kept@.len() && a != b implies members_view(kept@)[a].0
                    != members_view(kept@)[b].0 by {
                    if a < before.len() && b < before.len() {
                        assert(members_view(kept@)[a] == members_view(before)[a]);
                        assert(members_view(kept@)[b] == members_view(before)[b]);
                    } else if a < before.len() {
                        assert(members_view(kept@)[a] == members_view(before)[a]);
                        let j = choose|j: int| 0 <= j < i && #[trigger] members_view(before)[a] == ms[j];
                        assert(ms[j].0 != ms[i as int].0);
                    } else {
                        assert(members_view(kept@)[b] == members_view(before)[b]);
                        let j = choose|j: int| 0 <= j < i && #[trigger] members_view(before)[b] == ms[j];
                        assert(ms[j].0 != ms[i as int].0);
                    }
                }
            }
            i += 1;
        }
        assert(ms.take(ms.len() as int) =~= ms);
        proof {
            if found {
                let j = choose|j: int| 0 <= j < ms.len() && ms[j].0 == addr@;
                assert(member_index(ms, addr@) is Some);
            } else {
                assert(member_index(ms, addr@) is None);
            }
        }
        self.members = kept;
        found
    }

    /// We host the room.
    pub fn is_host(&self) -> (r: bool)
        ensures
            r == (self.view().role == Some(RoomRole::Host)),
    {
        match self.role {
            Some(RoomRole::Host) => true,
            _ => false,
        }
    }

    /// The room's platform, game and members, when a game is set.
    pub fn current_room(&self) -> (r: Option<(Platform, String, Vec<RoomMember>)>)
        ensures
            match (self.view().platform, self.view().game_name) {
                (Some(p), Some(n)) => r matches Some((rp, rn, rm)) && rp == p && rn@ == n
                    && members_view(rm@) == self.view().members,
                _ => r is None,
            },
            self.wf() ==> (r is Some <==> self.view().role is Some),
    {
        match (self.platform, &self.game_name) {
            (Some(p), Some(n)) => Some((p, copy_string(n), copy_members(&self.members))),
            _ => None,
        }
    }
}

impl Default for LobbyState {
    fn default() -> (r: Self)
        ensures
            r.wf(),
            r.view() == no_room(),
    {
        LobbyState::new()
    }
}

/// Adding a member twice in a row changes nothing the second time.
pub proof fn lemma_add_member_idempotent(ms: Seq<MemberView>, addr: Seq<char>, name: Option<Seq<char>>)
    requires
        distinct_members(ms),
    ensures
        added(added(ms, addr, name).0, addr, name) == (added(ms, addr, name).0, false),
        distinct_members(added(ms, addr, name).0),
{
    lemma_member_index(ms, addr);
    let m1 = added(ms, addr, name).0;
    lemma_member_index(m1, addr);
    match member_index(ms, addr) {
        Some(i) => {
            assert(m1[i].0 == addr);
            match member_index(m1, addr) {
                Some(k) => {
                    if k != i {
                        assert(m1[k].0 == ms[k].0);
                    }
                },
                None => {},
            }
            assert forall|a: int, b: int| 0 <= a < m1.len() && 0 <= b < m1.len() && a != b implies m1[a].0 != m1[b].0 by {
                assert(m1[a].0 == ms[a].0 && m1[b].0 == ms[b].0);
            }
        },
        None => {
            let n = ms.len() as int;
            assert(m1[n].0 == addr);
            match member_index(m1, addr) {
                Some(k) => {
                    if k < n {
                        assert(m1[k] == ms[k]);
                    }
                },
                None => {},
            }
            assert forall|a: int, b: int| 0 <= a < m1.len() && 0 <= b < m1.len() && a != b implies m1[a].0 != m1[b].0 by {
                if a < n {
                    assert(m1[a] == ms[a]);
                }
                if b < n {
                    assert(m1[b] == ms[b]);
                }
            }
        },
    }
}

/// After a member is removed, no member has its address.
pub proof fn lemma_removed_member_is_gone(ms: Seq<MemberView>, addr: Seq<char>)
    ensures
        forall|j: int| 0 <= j < without(ms, addr).len() ==> without(ms, addr)[j].0 != addr,
        member_index(without(ms, addr), addr) is None,
    decreases ms.len(),
{
    if ms.len() > 0 {
        lemma_removed_member_is_gone(ms.drop_last(), addr);
    }
    lemma_member_index(without(ms, addr), addr);
}

} // verus!

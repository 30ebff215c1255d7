//! Lobby records.

use vstd::prelude::*;

use crate::library::platform::Platform;
use crate::text::opt_chars;

verus! {

/// What role this node plays in the active room.
#[derive(Debug, Clone, Copy, PartialEq, Eq, Structural)]
pub enum RoomRole {
    /// We host: we picked the game and own the netplay listener.
    Host,
    /// We joined someone else's room.
    Member,
}

/// One peer in a room, identified by its chat address.
#[derive(Debug, Clone)]
pub struct RoomMember {
    pub addr: String,
    pub display_name: Option<String>,
}

/// The plain-value model of a member: address and display name.
pub open spec fn member_view(m: RoomMember) -> (Seq<char>, Option<Seq<char>>) {
    (m.addr@, opt_chars(m.display_name))
}

pub open spec fn members_view(s: Seq<RoomMember>) -> Seq<(Seq<char>, Option<Seq<char>>)> {
    s.map_values(|m: RoomMember| member_view(m))
}

/// What the UI shows of the active room.
#[derive(Debug, Clone)]
pub struct RoomSnapshot {
    /// `None` when not in any room.
    pub role: Option<RoomRole>,
    /// Address of the host; `self` when we host.
    pub host_addr: Option<String>,
    pub host_name: Option<String>,
    pub platform: Option<Platform>,
    pub game_name: Option<String>,
    pub members: Vec<RoomMember>,
}

/// The plain-value model of the room.
pub struct RoomView {
    pub role: Option<RoomRole>,
    pub host_addr: Option<Seq<char>>,
    pub host_name: Option<Seq<char>>,
    pub platform: Option<Platform>,
    pub game_name: Option<Seq<char>>,
    pub members: Seq<(Seq<char>, Option<Seq<char>>)>,
}

pub open spec fn snapshot_view(s: RoomSnapshot) -> RoomView {
    RoomView {
        role: s.role,
        host_addr: opt_chars(s.host_addr),
        host_name: opt_chars(s.host_name),
        platform: s.platform,
        game_name: opt_chars(s.game_name),
        members: members_view(s.members@),
    }
}

/// No room at all.
pub open spec fn no_room() -> RoomView {
    RoomView {
        role: None,
        host_addr: None,
        host_name: None,
        platform: None,
        game_name: None,
        members: Seq::empty(),
    }
}

/// Result of launching a game for a room.
#[derive(Debug, Clone)]
pub struct LobbyLaunchReport {
    pub run_id: String,
    pub command_line: String,
    pub role: RoomRole,
}

/// Event names the lobby emits under.
pub const LOBBY_EVENT: &'static str = "abyss://lobby/state";

pub const LOBBY_INCOMING_EVENT: &'static str = "abyss://lobby/incoming-invite";

} // verus!

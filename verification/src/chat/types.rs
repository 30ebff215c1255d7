//! Chat wire messages and records.

use vstd::prelude::*;

use crate::library::platform::Platform;
use crate::text::opt_chars;

verus! {

/// Messages exchanged between two nodes.
#[derive(Debug, Clone, PartialEq)]
pub enum ChatProtocol {
    /// First frame on a fresh connection: the peer identifies itself.
    Hello { name: String, app_version: String, sent_at_ms: i64 },
    /// A text chat message.
    Chat { id: String, body: String, sent_at_ms: i64 },
    /// Periodic broadcast of what the peer is doing.
    Presence { status: PresenceStatus, activity: Option<String>, sent_at_ms: i64 },
    /// Liveness probe and its answer.
    Ping { sent_at_ms: i64 },
    Pong { sent_at_ms: i64 },
    /// The peer wants to send a game file.
    FileOffer {
        transfer_id: String,
        file_name: String,
        file_size: u64,
        platform: Platform,
        sha256: String,
        sent_at_ms: i64,
    },
    /// Answer to a file offer, with the offset to resume a partial copy from.
    FileAccept { transfer_id: String, accept: bool, resume_offset: Option<u64>, sent_at_ms: i64 },
    /// A host advertises the room it is hosting.
    LobbyAdvertise {
        host_name: String,
        platform: String,
        game_name: String,
        members: Vec<String>,
        sent_at_ms: i64,
    },
    /// A member asks to join the host's room.
    LobbyJoinRequest { display_name: String, sent_at_ms: i64 },
    /// The host accepted a join.
    LobbyJoinAccepted { platform: String, game_name: String, sent_at_ms: i64 },
    /// A member leaves the room.
    LobbyLeave { sent_at_ms: i64 },
    /// The host closes the room.
    LobbyClose { sent_at_ms: i64 },
    /// The host starts the game; members launch as netplay clients.
    LobbyStartGame { platform: String, game_name: String, host_addr: String, sent_at_ms: i64 },
    /// A friend asks the host to accept a streaming pair with this PIN.
    StreamPairOffer { pin: String, sent_at_ms: i64 },
    /// Result of the host's auto-accept.
    StreamPairResult { ok: bool, error: Option<String>, sent_at_ms: i64 },
}

/// What a node is doing.
#[derive(Debug, Clone, Copy, PartialEq, Eq, Structural)]
pub enum PresenceStatus {
    Idle,
    Playing,
    Streaming,
    Away,
}

impl Default for PresenceStatus {
    fn default() -> (r: Self)
        ensures
            r == PresenceStatus::Idle,
    {
        PresenceStatus::Idle
    }
}

/// The default chat listener port: unprivileged and clear of Sunshine's
/// 47984-47990 range.
pub fn default_port() -> (r: u16)
    ensures
        r == 47992,
{
    47992
}

/// Persisted chat configuration.
#[derive(Debug, Clone)]
pub struct ChatConfig {
    /// Display name; the OS host name when unset.
    pub display_name: Option<String>,
    /// TCP port the listener binds.
    pub listen_port: u16,
    /// Start the listener on launch. Off unless the user opts in, so no
    /// port is opened silently.
    pub enabled: bool,
}

impl Default for ChatConfig {
    fn default() -> (r: Self)
        ensures
            r.display_name is None,
            r.listen_port == 47992,
            !r.enabled,
    {
        ChatConfig { display_name: None, listen_port: default_port(), enabled: false }
    }
}

/// Which way a chat message went.
#[derive(Debug, Clone, Copy, PartialEq, Eq, Structural)]
pub enum Direction {
    Inbound,
    Outbound,
}

/// One message of the chat history.
#[derive(Debug, Clone)]
pub struct ChatHistoryEntry {
    pub id: String,
    pub peer_addr: String,
    pub direction: Direction,
    pub body: String,
    /// When it was sent or received, in milliseconds since the Unix epoch.
    pub at_ms: i64,
}

/// The plain-value model of a history entry.
pub struct EntryView {
    pub id: Seq<char>,
    pub peer_addr: Seq<char>,
    pub direction: Direction,
    pub body: Seq<char>,
    pub at_ms: i64,
}

impl View for ChatHistoryEntry {
    type V = EntryView;

    open spec fn view(&self) -> EntryView {
        EntryView {
            id: self.id@,
            peer_addr: self.peer_addr@,
            direction: self.direction,
            body: self.body@,
            at_ms: self.at_ms,
        }
    }
}

/// What is known of a peer.
#[derive(Debug, Clone)]
pub struct PeerSnapshot {
    pub addr: String,
    pub display_name: Option<String>,
    /// A live connection to the peer exists.
    pub connected: bool,
    pub presence: Option<PresenceStatus>,
    pub activity: Option<String>,
    /// Last time a frame arrived, in milliseconds since the Unix epoch.
    pub last_seen_ms: Option<i64>,
}

/// The plain-value model of a peer snapshot (without its address).
pub struct PeerView {
    pub display_name: Option<Seq<char>>,
    pub connected: bool,
    pub presence: Option<PresenceStatus>,
    pub activity: Option<Seq<char>>,
    pub last_seen_ms: Option<i64>,
}

pub open spec fn snapshot_view(p: PeerSnapshot) -> (Seq<char>, PeerView) {
    (
        p.addr@,
        PeerView {
            display_name: opt_chars(p.display_name),
            connected: p.connected,
            presence: p.presence,
            activity: opt_chars(p.activity),
            last_seen_ms: p.last_seen_ms,
        },
    )
}

/// Event names the chat subsystem emits under.
pub const CHAT_MESSAGE_EVENT: &'static str = "abyss://chat/message";

pub const CHAT_PEER_EVENT: &'static str = "abyss://chat/peer-update";

} // verus!

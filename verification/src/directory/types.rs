//! Directory records, as the worker returns them.

use vstd::prelude::*;

verus! {

/// One online user.
#[derive(Debug, Clone)]
pub struct OnlineUser {
    pub id: String,
    pub handle: String,
    pub country: Option<String>,
    pub last_seen: i64,
    pub app_version: String,
}

/// One friend request in our inbox.
#[derive(Debug, Clone)]
pub struct FriendRequest {
    pub id: i64,
    pub from_id: String,
    pub from_handle: String,
    pub message: Option<String>,
    pub invite_code: Option<String>,
    pub created_at: i64,
}

/// The outcome of a friend request we sent.
#[derive(Debug, Clone)]
pub struct FriendResponse {
    pub id: i64,
    pub to_id: String,
    /// `accepted` or `rejected`.
    pub status: String,
    pub accept_invite_code: Option<String>,
    pub responded_at: Option<i64>,
    pub created_at: i64,
}

/// One friend.
#[derive(Debug, Clone)]
pub struct Friend {
    pub id: String,
    pub handle: String,
    pub country: Option<String>,
    pub last_seen: i64,
    pub hidden: i64,
    pub established_at: i64,
}

/// One direct message, in either direction.
#[derive(Debug, Clone)]
pub struct DirectMessage {
    pub id: i64,
    pub from_id: String,
    pub to_id: String,
    pub body: String,
    pub sent_at: i64,
}

/// One global-chat message.
#[derive(Debug, Clone)]
pub struct GlobalChatMessage {
    pub id: i64,
    pub user_id: String,
    pub handle: String,
    pub body: String,
    pub sent_at: i64,
}

/// Event names the directory poller emits under.
pub const DIR_FRIEND_REQUEST_EVENT: &'static str = "abyss://directory/friend-request";

pub const DIR_FRIEND_RESPONSE_EVENT: &'static str = "abyss://directory/friend-response";

pub const DIR_DM_EVENT: &'static str = "abyss://directory/dm";

pub const DIR_GLOBAL_CHAT_EVENT: &'static str = "abyss://directory/global-chat";

} // verus!

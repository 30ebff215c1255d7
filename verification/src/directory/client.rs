//! Directory requests: the worker's endpoints and the query paths built
//! for them, and the heartbeat schedule. The HTTP calls and JSON bodies
//! are made by the host application.

use vstd::prelude::*;

use crate::text::{chars_of, decimal, extend_str, push_decimal, string_of};

verus! {

/// Seconds between presence heartbeats.
pub const HEARTBEAT_INTERVAL_SECS: u64 = 300;

/// Seconds between inbox polls.
pub const INBOX_POLL_INTERVAL_SECS: u64 = 30;

/// A directory endpoint bound to a worker and a user.
#[derive(Debug, Clone)]
pub struct Directory {
    /// Worker base URL without trailing slashes.
    pub base: String,
    pub user_id: String,
}

/// `s` without trailing `/` characters.
pub open spec fn without_trailing_slashes(s: Seq<char>) -> Seq<char>
    decreases s.len(),
{
    if s.len() > 0 && s.last() == '/' {
        without_trailing_slashes(s.drop_last())
    } else {
        s
    }
}

impl Directory {
    /// A client for the worker at `base` acting as `user_id`.
    pub fn new(base: &str, user_id: &str) -> (r: Self)
        ensures
            r.base@ == without_trailing_slashes(base@),
            r.user_id@ == user_id@,
    {
        let b = chars_of(base);
        let mut k = b.len();
        assert(b@.take(k as int) =~= b@);
        while k > 0 && b[k - 1] == '/'
            invariant
                k <= b@.len(),
                b@ == base@,
                without_trailing_slashes(b@) == without_trailing_slashes(b@.take(k as int)),
            decreases k,
        {
            assert(b@.take(k as int).drop_last() =~= b@.take(k - 1));
            k -= 1;
        }
        let t = crate::text::slice_chars(b.as_slice(), 0, k);
        assert(t@ =~= b@.take(k as int));
        Directory { base: string_of(t.as_slice()), user_id: crate::text::owned(user_id) }
    }

    /// The full URL of a request path.
    pub fn url(&self, path: &str) -> (r: String)
        ensures
            r@ == self.base@ + path@,
    {
        let mut v = chars_of(self.base.as_str());
        extend_str(&mut v, path);
        string_of(v.as_slice())
    }

    /// Users seen online in the last `since_ms` milliseconds, as we see them.
    pub fn online_path(&self, since_ms: u64) -> (r: String)
        ensures
            r@ == "/v1/online?since_ms="@ + decimal(since_ms as nat) + "&viewer_id="@ + self.user_id@,
    {
        let mut v: Vec<char> = Vec::new();
        extend_str(&mut v, "/v1/online?since_ms=");
        push_decimal(&mut v, since_ms);
        extend_str(&mut v, "&viewer_id=");
        extend_str(&mut v, self.user_id.as_str());
        string_of(v.as_slice())
    }

    fn user_query(&self, prefix: &str) -> (r: String)
        ensures
            r@ == prefix@ + self.user_id@,
    {
        let mut v: Vec<char> = Vec::new();
        extend_str(&mut v, prefix);
        extend_str(&mut v, self.user_id.as_str());
        string_of(v.as_slice())
    }

    /// Our friend-request inbox.
    pub fn friend_requests_path(&self) -> (r: String)
        ensures
            r@ == "/v1/friend-requests?user_id="@ + self.user_id@,
    {
        self.user_query("/v1/friend-requests?user_id=")
    }

    /// Outcomes of the friend requests we sent.
    pub fn friend_responses_path(&self) -> (r: String)
        ensures
            r@ == "/v1/friend-responses?user_id="@ + self.user_id@,
    {
        self.user_query("/v1/friend-responses?user_id=")
    }

    /// Our friends.
    pub fn friends_path(&self) -> (r: String)
        ensures
            r@ == "/v1/friends?user_id="@ + self.user_id@,
    {
        self.user_query("/v1/friends?user_id=")
    }

    /// Direct messages of the last `since_ms` milliseconds.
    pub fn dms_path(&self, since_ms: u64) -> (r: String)
        ensures
            r@ == "/v1/dm?user_id="@ + self.user_id@ + "&since_ms="@ + decimal(since_ms as nat),
    {
        let mut v: Vec<char> = Vec::new();
        extend_str(&mut v, "/v1/dm?user_id=");
        extend_str(&mut v, self.user_id.as_str());
        extend_str(&mut v, "&since_ms=");
        push_decimal(&mut v, since_ms);
        string_of(v.as_slice())
    }
}

/// Global chat of the last `since_ms` milliseconds.
pub fn global_chat_path(since_ms: u64) -> (r: String)
    ensures
        r@ == "/v1/global-chat?since_ms="@ + decimal(since_ms as nat),
{
    let mut v: Vec<char> = Vec::new();
    extend_str(&mut v, "/v1/global-chat?since_ms=");
    push_decimal(&mut v, since_ms);
    string_of(v.as_slice())
}

/// The heartbeat loop wakes every inbox-poll interval; on every tenth
/// wake (one heartbeat interval) it also refreshes our presence.
pub open spec fn presence_tick(tick: u64) -> bool {
    tick % ((HEARTBEAT_INTERVAL_SECS / INBOX_POLL_INTERVAL_SECS) as u64) == 0
}

/// Whether this wake of the poller also sends the presence heartbeat.
pub fn presence_due(tick: u64) -> (r: bool)
    ensures
        r == presence_tick(tick),
        r == (tick % 10 == 0),
{
    let every = HEARTBEAT_INTERVAL_SECS / INBOX_POLL_INTERVAL_SECS;
    tick % every == 0
}

} // verus!

//! Directory client configuration: identity, display name, worker URL and
//! privacy preferences, with the rules that fill in defaults and apply the
//! user's settings.

use vstd::prelude::*;
use vstd::utf8::{encode_scalar, encode_utf8};

use crate::digest::{le_bytes, push_bytes, push_le_bytes, sha256, sha256_digest};
use crate::text::{
    chars_of, copy_string, digit_char, extend_chars, extend_str, hex_byte, hex_bytes, hex_prefix,
    is_alnum, is_alphanumeric, lemma_hex_bytes_len, opt_chars, owned, slice_chars, string_of,
    trim, trim_exec,
};

verus! {

/// Worker URL used until the user picks another deployment.
pub const DEFAULT_WORKER_URL: &'static str = "https://abyss-directory.george-joseph992.workers.dev";

/// Settings key the configuration is stored under.
pub const DIRECTORY_CONFIG_KEY: &'static str = "directory.config";

/// Persisted directory client configuration.
#[derive(Debug, Clone)]
pub struct DirectoryConfig {
    /// Stable per-install id, generated on first run and never rotated.
    pub user_id: Option<String>,
    /// Display name.
    pub handle: Option<String>,
    /// Where the worker lives; unset disables the directory.
    pub worker_url: Option<String>,
    /// "Appear offline": heartbeats continue but we are not listed.
    pub hidden: bool,
    /// Optional two-letter country code.
    pub country: Option<String>,
}

/// An optional text that is present and not empty.
pub open spec fn filled(o: Option<Seq<char>>) -> bool {
    o matches Some(s) && s.len() > 0
}

fn is_filled(o: &Option<String>) -> (r: bool)
    ensures
        r == filled(opt_chars(*o)),
{
    match o {
        Some(s) => chars_of(s.as_str()).len() > 0,
        None => false,
    }
}

impl DirectoryConfig {
    /// Identity, display name and worker URL are all set and non-empty.
    pub open spec fn spec_ready(&self) -> bool {
        filled(opt_chars(self.user_id)) && filled(opt_chars(self.handle)) && filled(
            opt_chars(self.worker_url),
        )
    }

    /// Whether the client is fully configured to talk to a directory.
    pub fn is_ready(&self) -> (r: bool)
        ensures
            r == self.spec_ready(),
    {
        is_filled(&self.user_id) && is_filled(&self.handle) && is_filled(&self.worker_url)
    }
}

impl Default for DirectoryConfig {
    fn default() -> (r: Self)
        ensures
            r.user_id is None,
            r.handle is None,
            r.worker_url is None,
            !r.hidden,
            r.country is None,
    {
        DirectoryConfig { user_id: None, handle: None, worker_url: None, hidden: false, country: None }
    }
}

// ---------------------------------------------------------------------------
// Identity
// ---------------------------------------------------------------------------

/// The bytes hashed into a user id: timestamp in nanoseconds and process
/// id (little-endian), an eight-byte zero counter, and a fixed tag.
pub open spec fn user_id_seed(nanos: u128, pid: u32) -> Seq<u8> {
    le_bytes(nanos as nat, 16) + le_bytes(pid as nat, 4) + le_bytes(0, 8)
        + vstd::utf8::encode_utf8("abyss-directory-id-v1"@)
}

/// 32 hex digits laid out as a UUID: 8-4-4-4-12 groups joined by `-`.
pub open spec fn uuid_layout(h: Seq<char>) -> Seq<char> {
    h.subrange(0, 8) + "-"@ + h.subrange(8, 12) + "-"@ + h.subrange(12, 16) + "-"@ + h.subrange(
        16,
        20,
    ) + "-"@ + h.subrange(20, 32)
}

/// The user id derived from a digest: its first 16 bytes in hex, as a UUID.
pub open spec fn user_id_text(digest: Seq<u8>) -> Seq<char> {
    uuid_layout(hex_bytes(digest.take(16)))
}

/// A fresh user id: SHA-256 of the time (`nanos` since the Unix epoch) and
/// the process id, formatted as a UUID.
pub fn new_user_id(nanos: u128, pid: u32) -> (r: String)
    ensures
        r@ == user_id_text(sha256_digest(user_id_seed(nanos, pid))),
        uuid_shaped(r@),
{
    let mut data: Vec<u8> = Vec::new();
    push_le_bytes(&mut data, nanos, 16);
    push_le_bytes(&mut data, pid as u128, 4);
    push_le_bytes(&mut data, 0, 8);
    push_bytes(&mut data, "abyss-directory-id-v1".as_bytes());
    assert(data@ =~= user_id_seed(nanos, pid));
    let digest = sha256(data.as_slice());
    let hex = hex_prefix(digest.as_slice(), 16);
    proof {
        lemma_hex_bytes_len(digest@.take(16));
    }
    assert(hex@.len() == 32);
    let mut out: Vec<char> = Vec::new();
    let a = slice_chars(hex.as_slice(), 0, 8);
    let b = slice_chars(hex.as_slice(), 8, 12);
    let c = slice_chars(hex.as_slice(), 12, 16);
    let d = slice_chars(hex.as_slice(), 16, 20);
    let e = slice_chars(hex.as_slice(), 20, 32);
    extend_chars(&mut out, a.as_slice());
    extend_str(&mut out, "-");
    extend_chars(&mut out, b.as_slice());
    extend_str(&mut out, "-");
    extend_chars(&mut out, c.as_slice());
    extend_str(&mut out, "-");
    extend_chars(&mut out, d.as_slice());
    extend_str(&mut out, "-");
    extend_chars(&mut out, e.as_slice());
    proof {
        lemma_user_id_is_uuid_shaped(digest@);
    }
    string_of(out.as_slice())
}

/// A lower-case hexadecimal digit.
pub open spec fn is_hex_digit(c: char) -> bool {
    ('0' <= c && c <= '9') || ('a' <= c && c <= 'f')
}

/// The text has the UUID shape: 36 characters, `-` at positions 8, 13,
/// 18 and 23, lower-case hex digits elsewhere.
pub open spec fn uuid_shaped(s: Seq<char>) -> bool {
    &&& s.len() == 36
    &&& forall|i: int|
        0 <= i < 36 ==> if i == 8 || i == 13 || i == 18 || i == 23 {
            s[i] == '-'
        } else {
            is_hex_digit(#[trigger] s[i])
        }
}

proof fn lemma_hex_bytes_digits(s: Seq<u8>)
    ensures
        hex_bytes(s).len() == 2 * s.len(),
        forall|i: int| 0 <= i < hex_bytes(s).len() ==> is_hex_digit(#[trigger] hex_bytes(s)[i]),
    decreases s.len(),
{
    if s.len() > 0 {
        lemma_hex_bytes_digits(s.drop_last());
        let b = s.last();
        let hi = (b / 16) as nat;
        let lo = (b % 16) as nat;
        assert(is_hex_digit(digit_char(hi)));
        assert(is_hex_digit(digit_char(lo)));
        let prev = hex_bytes(s.drop_last());
        assert(hex_bytes(s) == prev + hex_byte(b));
        assert forall|i: int| 0 <= i < hex_bytes(s).len() implies is_hex_digit(#[trigger] hex_bytes(s)[i]) by {
            if i < prev.len() {
                assert(hex_bytes(s)[i] == prev[i]);
            } else if i == prev.len() {
                assert(hex_bytes(s)[i] == digit_char(hi));
            } else {
                assert(hex_bytes(s)[i] == digit_char(lo));
            }
        }
    }
}

/// Every generated user id has the UUID shape.
pub proof fn lemma_user_id_is_uuid_shaped(digest: Seq<u8>)
    requires
        digest.len() >= 16,
    ensures
        uuid_shaped(user_id_text(digest)),
{
    let h = hex_bytes(digest.take(16));
    lemma_hex_bytes_digits(digest.take(16));
    reveal_strlit("-");
    let s = user_id_text(digest);
    assert(s.len() == 36);
    assert forall|i: int| 0 <= i < 36 implies if i == 8 || i == 13 || i == 18 || i == 23 {
        s[i] == '-'
    } else {
        is_hex_digit(#[trigger] s[i])
    } by {
        if i < 8 {
            assert(s[i] == h[i]);
        } else if i == 8 {
        } else if i < 13 {
            assert(s[i] == h[i - 1]);
        } else if i == 13 {
        } else if i < 18 {
            assert(s[i] == h[i - 2]);
        } else if i == 18 {
        } else if i < 23 {
            assert(s[i] == h[i - 3]);
        } else if i == 23 {
        } else {
            assert(s[i] == h[i - 4]);
        }
    }
}

// ---------------------------------------------------------------------------
// Display name
// ---------------------------------------------------------------------------

/// The host-name characters a handle keeps: alphanumerics, `-` and space.
pub open spec fn handle_char(c: char) -> bool {
    is_alnum(c) || c == '-' || c == ' '
}

/// The kept characters of a host name, in order.
pub open spec fn handle_chars(s: Seq<char>) -> Seq<char>
    decreases s.len(),
{
    if s.len() == 0 {
        Seq::empty()
    } else if handle_char(s.last()) {
        handle_chars(s.drop_last()).push(s.last())
    } else {
        handle_chars(s.drop_last())
    }
}

/// The UTF-8 length of a character.
pub open spec fn utf8_width(c: char) -> nat {
    encode_scalar(c as u32).len()
}

/// How many leading characters of `s` fit in `budget` bytes of UTF-8.
pub open spec fn utf8_fit(s: Seq<char>, budget: int) -> nat
    decreases s.len(),
{
    if s.len() == 0 || utf8_width(s[0]) > budget {
        0
    } else {
        1 + utf8_fit(s.drop_first(), budget - utf8_width(s[0]))
    }
}

/// The longest prefix of `s` whose UTF-8 encoding is at most 24 bytes.
pub open spec fn handle_cap(s: Seq<char>) -> Seq<char> {
    s.take(utf8_fit(s, 24) as int)
}

/// The default handle for a host name: the longest run of its kept
/// characters from the start that fits in 24 bytes of UTF-8, trimmed;
/// `Abyss Player` when nothing is left.
pub open spec fn handle_from(raw: Seq<char>) -> Seq<char> {
    let t = trim(handle_cap(handle_chars(raw)));
    if t.len() == 0 {
        "Abyss Player"@
    } else {
        t
    }
}

fn char_utf8_width(c: char) -> (r: usize)
    ensures
        r == utf8_width(c),
        1 <= r <= 4,
{
    proof {
        vstd::utf8::char_is_scalar(c);
    }
    let u = c as u32;
    if u < 0x80 {
        1
    } else if u < 0x800 {
        2
    } else if u < 0x10000 {
        3
    } else {
        4
    }
}

/// The longest prefix of `s` that fits in 24 bytes of UTF-8.
fn cap_utf8(s: &Vec<char>) -> (r: Vec<char>)
    ensures
        r@ == handle_cap(s@),
{
    let mut i: usize = 0;
    let mut used: usize = 0;
    assert(s@.skip(0) =~= s@);
    while i < s.len()
        invariant_except_break
            i <= s@.len(),
            used <= 24,
            utf8_fit(s@, 24) == i + utf8_fit(s@.skip(i as int), 24 - used),
        ensures
            i <= s@.len(),
            utf8_fit(s@, 24) == i,
        decreases s.len() - i,
    {
        let w = char_utf8_width(s[i]);
        assert(s@.skip(i as int)[0] == s@[i as int]);
        if used + w > 24 {
            break;
        }
        assert(s@.skip(i as int).drop_first() =~= s@.skip(i + 1));
        used = used + w;
        i += 1;
    }
    slice_chars(s.as_slice(), 0, i)
}

/// Derive a handle from the OS host name (`Abyss Player` when none is
/// known), short enough to fit in chat rows.
pub fn default_handle(raw: &str) -> (r: String)
    ensures
        r@ == handle_from(raw@),
        0 < r@.len(),
        encode_utf8(r@).len() <= 24,
{
    proof {
        lemma_handle_bounds(raw@);
    }
    let s = chars_of(raw);
    let mut kept: Vec<char> = Vec::new();
    let mut i: usize = 0;
    while i < s.len()
        invariant
            i <= s@.len(),
            s@ == raw@,
            kept@ == handle_chars(s@.take(i as int)),
        decreases s.len() - i,
    {
        let c = s[i];
        assert(s@.take(i + 1).drop_last() =~= s@.take(i as int));
        assert(s@.take(i + 1).last() == c);
        if is_alphanumeric(c) || c == '-' || c == ' ' {
            kept.push(c);
        }
        i += 1;
    }
    assert(s@.take(s@.len() as int) =~= s@);
    let capped = cap_utf8(&kept);
    let t = trim_exec(capped.as_slice());
    if t.len() == 0 {
        owned("Abyss Player")
    } else {
        string_of(t.as_slice())
    }
}

/// The UTF-8 encoding of a concatenation is the concatenation of the encodings.
pub proof fn lemma_encode_utf8_concat(a: Seq<char>, b: Seq<char>)
    ensures
        encode_utf8(a + b) == encode_utf8(a) + encode_utf8(b),
    decreases a.len(),
{
    if a.len() == 0 {
        assert(a + b =~= b);
        assert(encode_utf8(a) =~= Seq::<u8>::empty());
        assert(encode_utf8(a) + encode_utf8(b) =~= encode_utf8(b));
    } else {
        assert((a + b).drop_first() =~= a.drop_first() + b);
        assert((a + b)[0] == a[0]);
        lemma_encode_utf8_concat(a.drop_first(), b);
        assert(encode_utf8(a + b) =~= encode_utf8(a) + encode_utf8(b));
    }
}

/// Every character takes at least one byte.
proof fn lemma_encode_utf8_len(s: Seq<char>)
    ensures
        s.len() <= encode_utf8(s).len(),
    decreases s.len(),
{
    if s.len() > 0 {
        lemma_encode_utf8_len(s.drop_first());
    }
}

/// An ASCII text takes one byte per character.
proof fn lemma_encode_utf8_ascii(s: Seq<char>)
    requires
        forall|i: int| 0 <= i < s.len() ==> (s[i] as u32) < 0x80,
    ensures
        encode_utf8(s).len() == s.len(),
    decreases s.len(),
{
    if s.len() > 0 {
        lemma_encode_utf8_ascii(s.drop_first());
    }
}

/// The characters counted by `utf8_fit` fit in the budget.
proof fn lemma_fit_bytes(s: Seq<char>, budget: int)
    requires
        budget >= 0,
    ensures
        utf8_fit(s, budget) <= s.len(),
        encode_utf8(s.take(utf8_fit(s, budget) as int)).len() <= budget,
    decreases s.len(),
{
    let k = utf8_fit(s, budget);
    if s.len() == 0 || utf8_width(s[0]) > budget {
        assert(s.take(0) =~= Seq::<char>::empty());
    } else {
        let rest = s.drop_first();
        lemma_fit_bytes(rest, budget - utf8_width(s[0]));
        assert(s.take(k as int) =~= seq![s[0]] + rest.take(k - 1));
        lemma_encode_utf8_concat(seq![s[0]], rest.take(k - 1));
        let one = seq![s[0]];
        assert(one.drop_first() =~= Seq::<char>::empty());
        assert(encode_utf8(one.drop_first()) =~= Seq::<u8>::empty());
        assert(encode_utf8(one) == encode_scalar(one[0] as u32) + encode_utf8(one.drop_first()));
        assert(encode_utf8(one).len() == utf8_width(s[0]));
    }
}

/// A default handle is never empty and its UTF-8 encoding is at most 24
/// bytes (so it has at most 24 characters).
pub proof fn lemma_handle_bounds(raw: Seq<char>)
    ensures
        0 < handle_from(raw).len(),
        encode_utf8(handle_from(raw)).len() <= 24,
        handle_from(raw).len() <= 24,
{
    reveal_strlit("Abyss Player");
    let kept = handle_chars(raw);
    let c = handle_cap(kept);
    lemma_fit_bytes(kept, 24);
    crate::text::lemma_trim_laws(c);
    let t = trim(c);
    let (a, b) = choose|a: int, b: int| 0 <= a <= b <= c.len() && trim(c) == c.subrange(a, b);
    assert(c =~= c.take(a) + (c.subrange(a, b) + c.skip(b)));
    lemma_encode_utf8_concat(c.take(a), c.subrange(a, b) + c.skip(b));
    lemma_encode_utf8_concat(c.subrange(a, b), c.skip(b));
    if t.len() == 0 {
        let ap = "Abyss Player"@;
        assert forall|i: int| 0 <= i < ap.len() implies (ap[i] as u32) < 0x80 by {}
        lemma_encode_utf8_ascii(ap);
    } else {
        lemma_encode_utf8_len(t);
    }
}

proof fn lemma_trim_len(s: Seq<char>)
    ensures
        trim(s).len() <= s.len(),
{
    crate::text::lemma_trim_start_len(s);
    lemma_trim_end_len(crate::text::trim_start(s));
}

proof fn lemma_trim_end_len(s: Seq<char>)
    ensures
        crate::text::trim_end(s).len() <= s.len(),
    decreases s.len(),
{
    if s.len() > 0 && crate::text::is_ws(s.last()) {
        lemma_trim_end_len(s.drop_last());
    }
}

// ---------------------------------------------------------------------------
// Defaults and settings
// ---------------------------------------------------------------------------

/// The configuration with every unset field minted: a fresh id, the
/// default handle, the built-in worker URL. Set fields are kept.
pub open spec fn with_defaults(
    cfg: DirectoryConfig,
    fresh_id: Seq<char>,
    handle: Seq<char>,
) -> (Option<Seq<char>>, Option<Seq<char>>, Option<Seq<char>>) {
    (
        if filled(opt_chars(cfg.user_id)) {
            opt_chars(cfg.user_id)
        } else {
            Some(fresh_id)
        },
        if filled(opt_chars(cfg.handle)) {
            opt_chars(cfg.handle)
        } else {
            Some(handle)
        },
        if filled(opt_chars(cfg.worker_url)) {
            opt_chars(cfg.worker_url)
        } else {
            Some(DEFAULT_WORKER_URL@)
        },
    )
}

/// Fill in the unset identity, handle and worker URL so a fresh install
/// works without visiting the settings. Returns the configuration and
/// whether anything changed (and so must be saved).
pub fn ensure_defaults(cfg: DirectoryConfig, fresh_id: String, handle: String) -> (r: (
    DirectoryConfig,
    bool,
))
    ensures
        (opt_chars(r.0.user_id), opt_chars(r.0.handle), opt_chars(r.0.worker_url)) == with_defaults(
            cfg,
            fresh_id@,
            handle@,
        ),
        r.0.hidden == cfg.hidden,
        opt_chars(r.0.country) == opt_chars(cfg.country),
        r.1 == !cfg.spec_ready(),
        fresh_id@.len() > 0 && handle@.len() > 0 ==> r.0.spec_ready(),
{
    let mut cfg = cfg;
    let mut dirty = false;
    proof {
        reveal_strlit("https://abyss-directory.george-joseph992.workers.dev");
    }
    if !is_filled(&cfg.user_id) {
        cfg.user_id = Some(fresh_id);
        dirty = true;
    }
    if !is_filled(&cfg.handle) {
        cfg.handle = Some(handle);
        dirty = true;
    }
    if !is_filled(&cfg.worker_url) {
        cfg.worker_url = Some(owned(DEFAULT_WORKER_URL));
        dirty = true;
    }
    (cfg, dirty)
}

/// `s` without trailing `/` characters.
pub open spec fn strip_trailing_slashes(s: Seq<char>) -> Seq<char>
    decreases s.len(),
{
    if s.len() > 0 && s.last() == '/' {
        strip_trailing_slashes(s.drop_last())
    } else {
        s
    }
}

/// A text setting as stored: `None` when it is empty.
pub open spec fn non_empty(s: Seq<char>) -> Option<Seq<char>> {
    if s.len() > 0 {
        Some(s)
    } else {
        None
    }
}

fn strip_trailing_slashes_exec(s: &[char]) -> (r: Vec<char>)
    ensures
        r@ == strip_trailing_slashes(s@),
{
    let mut k = s.len();
    assert(s@.take(k as int) =~= s@);
    while k > 0 && s[k - 1] == '/'
        invariant
            k <= s@.len(),
            strip_trailing_slashes(s@) == strip_trailing_slashes(s@.take(k as int)),
        decreases k,
    {
        assert(s@.take(k as int).drop_last() =~= s@.take(k - 1));
        k -= 1;
    }
    let r = slice_chars(s, 0, k);
    assert(r@ =~= s@.take(k as int));
    r
}

fn non_empty_string(v: Vec<char>) -> (r: Option<String>)
    ensures
        opt_chars(r) == non_empty(v@),
{
    if v.len() > 0 {
        Some(string_of(v.as_slice()))
    } else {
        None
    }
}

/// Apply the user's directory settings. A missing id is minted; a given
/// handle or country is trimmed (and cleared when blank); with no handle
/// at all the default handle is used; a given worker URL is trimmed and
/// loses its trailing slashes; `hidden` is set when given.
pub fn apply_settings(
    cfg: DirectoryConfig,
    fresh_id: String,
    default_name: String,
    handle: Option<String>,
    worker_url: Option<String>,
    hidden: Option<bool>,
    country: Option<String>,
) -> (r: DirectoryConfig)
    ensures
        opt_chars(r.user_id) == if filled(opt_chars(cfg.user_id)) {
            opt_chars(cfg.user_id)
        } else {
            Some(fresh_id@)
        },
        opt_chars(r.handle) == match handle {
            Some(h) => match non_empty(trim(h@)) {
                Some(t) => Some(t),
                None => Some(default_name@),
            },
            None => match opt_chars(cfg.handle) {
                Some(t) => Some(t),
                None => Some(default_name@),
            },
        },
        opt_chars(r.worker_url) == match worker_url {
            Some(u) => non_empty(strip_trailing_slashes(trim(u@))),
            None => opt_chars(cfg.worker_url),
        },
        r.hidden == match hidden {
            Some(h) => h,
            None => cfg.hidden,
        },
        opt_chars(r.country) == match country {
            Some(c) => non_empty(trim(c@)),
            None => opt_chars(cfg.country),
        },
{
    let mut cfg = cfg;
    if !is_filled(&cfg.user_id) {
        cfg.user_id = Some(fresh_id);
    }
    match handle {
        Some(h) => {
            let t = trim_exec(chars_of(h.as_str()).as_slice());
            cfg.handle = non_empty_string(t);
        },
        None => {},
    }
    if cfg.handle.is_none() {
        cfg.handle = Some(default_name);
    }
    match worker_url {
        Some(u) => {
            let t = trim_exec(chars_of(u.as_str()).as_slice());
            let v = strip_trailing_slashes_exec(t.as_slice());
            cfg.worker_url = non_empty_string(v);
        },
        None => {},
    }
    match hidden {
        Some(h) => {
            cfg.hidden = h;
        },
        None => {},
    }
    match country {
        Some(c) => {
            let t = trim_exec(chars_of(c.as_str()).as_slice());
            cfg.country = non_empty_string(t);
        },
        None => {},
    }
    cfg
}

/// The worker URL and our id for making requests, or the message telling
/// the user to finish the set-up when the configuration is not ready.
pub fn client_settings(cfg: &DirectoryConfig) -> (r: Result<(String, String), String>)
    ensures
        !cfg.spec_ready() ==> (r matches Err(e) && e@ == "Directory isn't set up yet. Go to Settings → Directory and paste your Cloudflare Worker URL, then pick a display name."@),
        cfg.spec_ready() ==> (r matches Ok((base, me)) && base@ == strip_trailing_slashes(
            opt_chars(cfg.worker_url)->0,
        ) && Some(me@) == opt_chars(cfg.user_id)),
{
    if !cfg.is_ready() {
        return Err(owned("Directory isn't set up yet. Go to Settings → Directory and paste your Cloudflare Worker URL, then pick a display name."));
    }
    let url = match &cfg.worker_url {
        Some(u) => chars_of(u.as_str()),
        None => Vec::new(),
    };
    let me = match &cfg.user_id {
        Some(u) => copy_string(u),
        None => String::new(),
    };
    let base = strip_trailing_slashes_exec(url.as_slice());
    Ok((string_of(base.as_slice()), me))
}

} // verus!

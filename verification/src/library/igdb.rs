//! IGDB (Internet Game Database) metadata: the search query text, cover
//! URL normalisation, mapping a search hit into cached metadata, and the
//! request pacing and token-reuse rules. The HTTP requests are made by
//! the host application.
//!
//! The user rating is a floating-point value the logic never reads; it is
//! carried through unchanged as the type parameter `R`.

use vstd::prelude::*;

use crate::text::{
    chars_of, contains, decimal, extend_chars, extend_str, push_decimal, replace_all, replace_str,
    starts_with, starts_with_str, string_of,
};

verus! {

/// Twitch OAuth2 token endpoint.
pub const AUTH_URL: &'static str = "https://id.twitch.tv/oauth2/token";

/// IGDB games search endpoint.
pub const GAMES_URL: &'static str = "https://api.igdb.com/v4/games";

/// Minimum gap between requests, in milliseconds (IGDB allows 4 per second).
pub const MIN_REQUEST_GAP_MS: u64 = 260;

/// A cached token is reused while it has more than this many milliseconds left.
pub const TOKEN_MARGIN_MS: u64 = 60000;

/// A game cover as IGDB returns it.
#[derive(Debug, Clone)]
pub struct IgdbCover {
    pub url: Option<String>,
}

/// A platform reference as IGDB returns it.
#[derive(Debug, Clone)]
pub struct IgdbPlatformRef {
    pub name: Option<String>,
}

/// One search hit.
#[derive(Debug, Clone)]
pub struct IgdbGame<R> {
    pub id: u64,
    pub name: String,
    pub summary: Option<String>,
    /// Unix seconds.
    pub first_release_date: Option<i64>,
    pub total_rating: Option<R>,
    pub cover: Option<IgdbCover>,
    pub platforms: Vec<IgdbPlatformRef>,
}

/// Metadata cached on a library entry.
#[derive(Debug, Clone)]
pub struct IgdbMetadata<R> {
    pub igdb_id: u64,
    pub name: String,
    pub summary: Option<String>,
    pub cover_url: Option<String>,
    pub release_year: Option<u16>,
    pub total_rating: Option<R>,
    pub platforms: Vec<String>,
}

/// The Apicalypse query searching games by name: the fields we cache, the
/// quoted name (with `"` escaped as `\"`), and the result limit.
pub open spec fn search_query(name: Seq<char>, limit: u32) -> Seq<char> {
    "fields name,summary,cover.url,first_release_date,total_rating,platforms.name; search \""@
        + replace_all(name, "\""@, "\\\""@) + "\"; limit "@ + decimal(limit as nat) + ";"@
}

/// Build the search query for a game name.
pub fn build_search_query(name: &str, limit: u32) -> (r: String)
    ensures
        r@ == search_query(name@, limit),
{
    let n = chars_of(name);
    proof {
        reveal_strlit("\"");
    }
    let escaped = replace_str(n.as_slice(), "\"", "\\\"");
    let mut v: Vec<char> = Vec::new();
    extend_str(
        &mut v,
        "fields name,summary,cover.url,first_release_date,total_rating,platforms.name; search \"",
    );
    extend_chars(&mut v, escaped.as_slice());
    extend_str(&mut v, "\"; limit ");
    push_decimal(&mut v, limit as u64);
    extend_str(&mut v, ";");
    string_of(v.as_slice())
}

/// A cover URL made absolute (`https:`) and switched from the thumbnail
/// size to the large cover size.
pub open spec fn upgraded_cover(raw: Seq<char>) -> Seq<char> {
    let with_scheme = if starts_with(raw, "//"@) {
        "https:"@ + raw
    } else if !starts_with(raw, "http"@) {
        "https://"@ + raw
    } else {
        raw
    };
    replace_all(with_scheme, "/t_thumb/"@, "/t_cover_big_2x/"@)
}

/// IGDB returns protocol-relative thumbnail URLs such as
/// `//images.igdb.com/.../t_thumb/abc.jpg`; a game card wants an absolute
/// https URL of the high-resolution cover.
pub fn upgrade_cover_url(raw: &str) -> (r: String)
    ensures
        r@ == upgraded_cover(raw@),
{
    let c = chars_of(raw);
    let mut v: Vec<char> = Vec::new();
    if starts_with_str(c.as_slice(), "//") {
        extend_str(&mut v, "https:");
        extend_chars(&mut v, c.as_slice());
    } else if !starts_with_str(c.as_slice(), "http") {
        extend_str(&mut v, "https://");
        extend_chars(&mut v, c.as_slice());
    } else {
        v = c;
    }
    proof {
        reveal_strlit("/t_thumb/");
    }
    let out = replace_str(v.as_slice(), "/t_thumb/", "/t_cover_big_2x/");
    string_of(out.as_slice())
}

proof fn lemma_replace_absent(s: Seq<char>, from: Seq<char>, to: Seq<char>)
    requires
        !contains(s, from),
    ensures
        replace_all(s, from, to) == s,
{
}

/// An absolute URL without a thumbnail size token is left as it is: the
/// upgrade is idempotent on URLs already at the target size.
pub proof fn lemma_upgrade_keeps_final_urls(raw: Seq<char>)
    requires
        starts_with(raw, "http"@),
        !contains(raw, "/t_thumb/"@),
    ensures
        upgraded_cover(raw) == raw,
{
    reveal_strlit("//");
    reveal_strlit("http");
    assert(!starts_with(raw, "//"@)) by {
        if starts_with(raw, "//"@) {
            assert(raw[0] == "//"@[0]);
            assert(raw[0] == "http"@[0]);
        }
    }
    lemma_replace_absent(raw, "/t_thumb/"@, "/t_cover_big_2x/"@);
}

/// The calendar year (UTC) of a Unix timestamp, as `chrono` computes it;
/// `None` when the timestamp is outside chrono's representable range.
pub uninterp spec fn utc_year_of(secs: i64) -> Option<i32>;

/// `chrono::DateTime::<Utc>::from_timestamp(secs, 0)` and the `year()` of
/// the result. The contract names the result `utc_year_of(secs)`; the
/// calendar computation itself is chrono's and is not restated.
#[verifier::external_body]
fn utc_year(secs: i64) -> (r: Option<i32>)
    ensures
        r == utc_year_of(secs),
{
    chrono::DateTime::<chrono::Utc>::from_timestamp(secs, 0).map(|dt| chrono::Datelike::year(&dt))
}

/// The release year cached for a release date: the UTC year, truncated to
/// 16 bits as the cache stores it.
pub open spec fn release_year_of(date: Option<i64>) -> Option<u16> {
    match date {
        Some(secs) => match utc_year_of(secs) {
            Some(y) => Some(y as u16),
            None => None,
        },
        None => None,
    }
}

/// The names of the platform references that have one, in order.
pub open spec fn platform_names(ps: Seq<IgdbPlatformRef>) -> Seq<Seq<char>>
    decreases ps.len(),
{
    if ps.len() == 0 {
        Seq::empty()
    } else {
        match ps.last().name {
            Some(n) => platform_names(ps.drop_last()).push(n@),
            None => platform_names(ps.drop_last()),
        }
    }
}

/// `m` is the metadata cached for the search hit `game`: same id, name,
/// summary and rating, the release date as a year, the cover URL upgraded,
/// and the names of the named platform references in order.
pub open spec fn metadata_of<R>(m: IgdbMetadata<R>, game: IgdbGame<R>) -> bool {
    &&& m.igdb_id == game.id
    &&& m.name == game.name
    &&& m.summary == game.summary
    &&& m.total_rating == game.total_rating
    &&& m.release_year == release_year_of(game.first_release_date)
    &&& crate::text::opt_chars(m.cover_url) == match game.cover {
        Some(c) => match c.url {
            Some(u) => Some(upgraded_cover(u@)),
            None => None,
        },
        None => None,
    }
    &&& m.platforms@.map_values(|s: String| s@) == platform_names(game.platforms@)
}

/// Map a search hit into the metadata cached on a library entry: the
/// release date becomes a year, the cover URL is upgraded, and unnamed
/// platform references are dropped.
pub fn to_metadata<R>(game: IgdbGame<R>) -> (r: IgdbMetadata<R>)
    ensures
        metadata_of(r, game),
{
    let release_year = match game.first_release_date {
        Some(secs) => match utc_year(secs) {
            Some(y) => Some(y as u16),
            None => None,
        },
        None => None,
    };
    let cover_url = match &game.cover {
        Some(c) => match &c.url {
            Some(u) => Some(upgrade_cover_url(u.as_str())),
            None => None,
        },
        None => None,
    };
    let mut platforms: Vec<String> = Vec::new();
    let mut i: usize = 0;
    while i < game.platforms.len()
        invariant
            i <= game.platforms@.len(),
            platforms@.map_values(|s: String| s@) == platform_names(game.platforms@.take(i as int)),
        decreases game.platforms.len() - i,
    {
        assert(game.platforms@.take(i + 1).drop_last() =~= game.platforms@.take(i as int));
        assert(game.platforms@.take(i + 1).last() == game.platforms@[i as int]);
        let ghost before = platforms@.map_values(|s: String| s@);
        match &game.platforms[i].name {
            Some(n) => {
                platforms.push(crate::text::copy_string(n));
                assert(platforms@.map_values(|s: String| s@) =~= before.push(n@));
            },
            None => {},
        }
        i += 1;
    }
    assert(game.platforms@.take(game.platforms@.len() as int) =~= game.platforms@);
    IgdbMetadata {
        igdb_id: game.id,
        name: game.name,
        summary: game.summary,
        cover_url,
        release_year,
        total_rating: game.total_rating,
        platforms,
    }
}

/// How long to wait before the next request, given the milliseconds since
/// the previous one (`None` before the first request).
pub fn throttle_delay_ms(since_last_ms: Option<u64>) -> (r: u64)
    ensures
        r == match since_last_ms {
            Some(e) => if e < MIN_REQUEST_GAP_MS {
                (MIN_REQUEST_GAP_MS - e) as u64
            } else {
                0
            },
            None => 0,
        },
{
    match since_last_ms {
        Some(e) => if e < MIN_REQUEST_GAP_MS {
            MIN_REQUEST_GAP_MS - e
        } else {
            0
        },
        None => 0,
    }
}

/// Consecutive requests are never closer than the minimum gap: after
/// waiting the throttle delay, at least `MIN_REQUEST_GAP_MS` have passed.
pub proof fn lemma_throttle_spacing(since_last_ms: u64)
    ensures
        since_last_ms + (if since_last_ms < MIN_REQUEST_GAP_MS {
            MIN_REQUEST_GAP_MS - since_last_ms
        } else {
            0
        }) >= MIN_REQUEST_GAP_MS,
{
}

/// Whether a cached token (expiring at `expires_at_ms`) can still be used
/// at `now_ms`: it must have more than the safety margin left.
pub fn token_is_fresh(expires_at_ms: Option<u64>, now_ms: u64) -> (r: bool)
    ensures
        r == match expires_at_ms {
            Some(exp) => exp > now_ms + TOKEN_MARGIN_MS,
            None => false,
        },
{
    match expires_at_ms {
        Some(exp) => exp > now_ms && exp - now_ms > TOKEN_MARGIN_MS,
        None => false,
    }
}

} // verus!

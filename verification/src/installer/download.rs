//! Download URL planning. A manifest URL is either a direct HTTPS URL or a
//! `gh-latest://owner/repo/asset-substring` reference, resolved by asking
//! the GitHub releases API for the latest release of `owner/repo` and
//! taking the first asset whose name contains the substring (ASCII
//! case-insensitively). The HTTP requests are made by the host
//! application; this module decides what to request and what to pick.

use vstd::prelude::*;

use crate::library::platform::{last_index_of, last_index_of_exec, lemma_last_index_of};
use crate::text::{
    ascii_lower_exec, ascii_lower_seq, chars_of, contains, contains_exec, extend_chars,
    extend_str, find, find_exec, find_from, lemma_find_from, matches_at, slice_chars, starts_with, starts_with_str,
    string_of,
};

verus! {

/// Scheme of release-relative download references.
pub open spec fn gh_latest_prefix() -> Seq<char> {
    "gh-latest://"@
}

/// Where a manifest URL is downloaded from.
#[derive(Debug, Clone)]
pub enum UrlSource {
    /// A concrete URL, used as is.
    Direct(String),
    /// The latest release of `owner/repo`: its first asset whose lower-cased
    /// name contains `needle` (already lower-cased).
    GhLatest { owner: String, repo: String, needle: String },
}

/// How a manifest URL is resolved, with the error text for a malformed
/// `gh-latest://` reference.
pub fn url_source(url: &str) -> (r: Result<UrlSource, String>)
    ensures
        !starts_with(url@, gh_latest_prefix()) ==> (r matches Ok(UrlSource::Direct(u)) && u@ == url@),
        starts_with(url@, gh_latest_prefix()) ==> {
            let rest = url@.skip(gh_latest_prefix().len() as int);
            match find(rest, "/"@) {
                None => (r matches Err(e) && e@ == "gh-latest:// missing repo: "@ + url@),
                Some(a) => match find(rest.skip(a + 1), "/"@) {
                    None => (r matches Err(e) && e@ == "gh-latest:// missing asset substring: "@
                        + url@),
                    Some(b) => (r matches Ok(UrlSource::GhLatest { owner, repo, needle }) && owner@
                        == rest.take(a) && repo@ == rest.skip(a + 1).take(b) && needle@
                        == ascii_lower_seq(rest.skip(a + 1).skip(b + 1))),
                },
            }
        },
{
    let u = chars_of(url);
    if !starts_with_str(u.as_slice(), "gh-latest://") {
        return Ok(UrlSource::Direct(string_of(u.as_slice())));
    }
    let p = chars_of("gh-latest://");
    let rest = slice_chars(u.as_slice(), p.len(), u.len());
    assert(rest@ =~= url@.skip(gh_latest_prefix().len() as int));
    let slash = chars_of("/");
    match find_exec(rest.as_slice(), slash.as_slice()) {
        None => {
            let mut e: Vec<char> = Vec::new();
            extend_str(&mut e, "gh-latest:// missing repo: ");
            extend_chars(&mut e, u.as_slice());
            Err(string_of(e.as_slice()))
        },
        Some(a) => {
            proof {
                reveal_strlit("/");
                lemma_find_from(rest@, slash@, 0);
                assert(find(rest@, slash@) == find_from(rest@, slash@, 0));
                assert(matches_at(rest@, slash@, a as int));
            }
            let r2 = slice_chars(rest.as_slice(), a + 1, rest.len());
            assert(r2@ =~= rest@.skip(a + 1));
            match find_exec(r2.as_slice(), slash.as_slice()) {
                None => {
                    let mut e: Vec<char> = Vec::new();
                    extend_str(&mut e, "gh-latest:// missing asset substring: ");
                    extend_chars(&mut e, u.as_slice());
                    Err(string_of(e.as_slice()))
                },
                Some(b) => {
                    proof {
                        reveal_strlit("/");
                        lemma_find_from(r2@, slash@, 0);
                        assert(find(r2@, slash@) == find_from(r2@, slash@, 0));
                        assert(matches_at(r2@, slash@, b as int));
                    }
                    let owner = slice_chars(rest.as_slice(), 0, a);
                    let repo = slice_chars(r2.as_slice(), 0, b);
                    let needle_raw = slice_chars(r2.as_slice(), b + 1, r2.len());
                    let needle = ascii_lower_exec(needle_raw.as_slice());
                    assert(owner@ =~= rest@.take(a as int));
                    assert(repo@ =~= r2@.take(b as int));
                    assert(needle_raw@ =~= r2@.skip(b + 1));
                    Ok(
                        UrlSource::GhLatest {
                            owner: string_of(owner.as_slice()),
                            repo: string_of(repo.as_slice()),
                            needle: string_of(needle.as_slice()),
                        },
                    )
                },
            }
        },
    }
}

/// The GitHub API URL of the latest release of `owner/repo`.
pub fn release_api_url(owner: &str, repo: &str) -> (r: String)
    ensures
        r@ == "https://api.github.com/repos/"@ + owner@ + "/"@ + repo@ + "/releases/latest"@,
{
    let mut v: Vec<char> = Vec::new();
    extend_str(&mut v, "https://api.github.com/repos/");
    extend_str(&mut v, owner);
    extend_str(&mut v, "/");
    extend_str(&mut v, repo);
    extend_str(&mut v, "/releases/latest");
    string_of(v.as_slice())
}

/// Index of the first asset whose lower-cased name contains `needle`.
pub open spec fn asset_pick(names: Seq<Seq<char>>, needle: Seq<char>) -> Option<int>
    decreases names.len(),
{
    if names.len() == 0 {
        None
    } else if contains(ascii_lower_seq(names[0]), needle) {
        Some(0)
    } else {
        match asset_pick(names.drop_first(), needle) {
            Some(i) => Some(i + 1),
            None => None,
        }
    }
}

/// Which release asset to download: the first whose name, ASCII
/// lower-cased, contains the (lower-case) `needle`.
pub fn pick_asset(names: &Vec<String>, needle: &str) -> (r: Option<usize>)
    ensures
        match asset_pick(names@.map_values(|s: String| s@), needle@) {
            Some(i) => r == Some(i as usize),
            None => r is None,
        },
{
    let ghost nv = names@.map_values(|s: String| s@);
    let nd = chars_of(needle);
    let mut i: usize = 0;
    assert(nv.skip(0) =~= nv);
    while i < names.len()
        invariant
            i <= names@.len(),
            nv == names@.map_values(|s: String| s@),
            nd@ == needle@,
            asset_pick(nv, needle@) == match asset_pick(nv.skip(i as int), needle@) {
                Some(k) => Some(k + i),
                None => None,
            },
        decreases names.len() - i,
    {
        let name = chars_of(names[i].as_str());
        let lower = ascii_lower_exec(name.as_slice());
        assert(nv.skip(i as int)[0] == names@[i as int]@);
        if contains_exec(lower.as_slice(), nd.as_slice()) {
            return Some(i);
        }
        assert(nv.skip(i as int).drop_first() =~= nv.skip(i + 1));
        i += 1;
    }
    None
}

/// The RetroArch cores bundle sitting next to the frontend archive: the
/// URL with its last path segment replaced by `RetroArch_cores.7z`.
pub open spec fn cores_url_for(frontend: Seq<char>) -> Seq<char> {
    match last_index_of(frontend, '/') {
        Some(i) => frontend.take(i) + "/RetroArch_cores.7z"@,
        None => frontend,
    }
}

/// URL of the libretro cores bundle matching a RetroArch frontend URL.
pub fn retroarch_cores_url(frontend_url: &str) -> (r: String)
    ensures
        r@ == cores_url_for(frontend_url@),
{
    let u = chars_of(frontend_url);
    match last_index_of_exec(u.as_slice(), '/') {
        Some(i) => {
            proof {
                lemma_last_index_of(u@, '/');
            }
            let mut v = slice_chars(u.as_slice(), 0, i);
            assert(v@ =~= u@.take(i as int));
            extend_str(&mut v, "/RetroArch_cores.7z");
            string_of(v.as_slice())
        },
        None => string_of(u.as_slice()),
    }
}

} // verus!

//! Library scanning rules: which files are games, how a stable id is
//! derived from a file, which disc-track files a sibling descriptor
//! already represents, and how a fresh scan is merged into the cached
//! library without losing metadata enrichment.
//!
//! The directory walk itself is I/O and happens outside this module; it
//! hands every file it meets to [`scan_candidate`] and the collected
//! records to [`merge_scan`].

use vstd::prelude::*;

use crate::digest::{hex_encode, le_bytes, push_bytes, push_le_bytes, sha256, sha256_digest};
use crate::library::platform::{
    ext_table, lookup, lower_extension, lower_extension_of, path_lower_extension, platform_for_extension,
    refine_ambiguous, refined_platform, Platform,
};
use crate::text::{
    char_lowercase, char_to_lowercase, chars_eq, chars_of, extend_chars, hex_bytes, lowercase,
    owned, split_words, string_of, to_lowercase, words,
};

verus! {

// ---------------------------------------------------------------------------
// Name normalisation
// ---------------------------------------------------------------------------

/// The characters of `s` outside `(...)` and `[...]` groups, each mapped
/// through `char::to_lowercase`. `paren` / `brack` are the current nesting
/// depths; a closing bracket never takes a depth below zero.
pub open spec fn strip_tags(s: Seq<char>, paren: nat, brack: nat) -> Seq<char>
    decreases s.len(),
{
    if s.len() == 0 {
        Seq::empty()
    } else {
        let c = s[0];
        let rest = s.drop_first();
        if c == '(' {
            strip_tags(rest, paren + 1, brack)
        } else if c == ')' {
            strip_tags(rest, if paren > 0 { (paren - 1) as nat } else { 0 }, brack)
        } else if c == '[' {
            strip_tags(rest, paren, brack + 1)
        } else if c == ']' {
            strip_tags(rest, paren, if brack > 0 { (brack - 1) as nat } else { 0 })
        } else if paren == 0 && brack == 0 {
            char_lowercase(c) + strip_tags(rest, paren, brack)
        } else {
            strip_tags(rest, paren, brack)
        }
    }
}

/// Words joined by single spaces.
pub open spec fn join_words(ws: Seq<Seq<char>>) -> Seq<char>
    decreases ws.len(),
{
    if ws.len() == 0 {
        Seq::empty()
    } else if ws.len() == 1 {
        ws[0]
    } else {
        join_words(ws.drop_last()) + seq![' '] + ws.last()
    }
}

/// A file stem with ROM tags such as ` (USA)` or ` [!]` removed, lower-cased
/// and with whitespace runs collapsed to single spaces.
pub open spec fn normalised(stem: Seq<char>) -> Seq<char> {
    join_words(words(strip_tags(stem, 0, 0)))
}

/// Lower-case a file stem and strip ROM-tag clutter so the hash is stable
/// across e.g. " (USA)" / " [!]" annotation variations of the same dump.
pub fn normalise_for_hash(stem: &str) -> (r: String)
    ensures
        r@ == normalised(stem@),
{
    let s = chars_of(stem);
    let mut out: Vec<char> = Vec::new();
    let mut paren: usize = 0;
    let mut brack: usize = 0;
    let mut i: usize = 0;
    assert(s@.skip(0) =~= s@);
    while i < s.len()
        invariant
            i <= s.len(),
            paren <= i,
            brack <= i,
            s@ == stem@,
            out@ + strip_tags(s@.skip(i as int), paren as nat, brack as nat) == strip_tags(
                s@,
                0,
                0,
            ),
        decreases s.len() - i,
    {
        let ghost rest = s@.skip(i as int);
        assert(rest.drop_first() =~= s@.skip(i + 1));
        let c = s[i];
        if c == '(' {
            paren += 1;
        } else if c == ')' {
            if paren > 0 {
                paren -= 1;
            }
        } else if c == '[' {
            brack += 1;
        } else if c == ']' {
            if brack > 0 {
                brack -= 1;
            }
        } else if paren == 0 && brack == 0 {
            let l = char_to_lowercase(c);
            let ghost before = out@;
            extend_chars(&mut out, l.as_slice());
            assert(out@ + strip_tags(s@.skip(i + 1), paren as nat, brack as nat) =~= before + (
            char_lowercase(c) + strip_tags(s@.skip(i + 1), paren as nat, brack as nat)));
        }
        i += 1;
    }
    assert(strip_tags(s@.skip(i as int), paren as nat, brack as nat) =~= Seq::<char>::empty());
    assert(out@ =~= strip_tags(s@, 0, 0));
    let ws = split_words(out.as_slice());
    let mut joined: Vec<char> = Vec::new();
    let mut k: usize = 0;
    while k < ws.len()
        invariant
            k <= ws@.len(),
            ws@.len() == words(out@).len(),
            forall|j: int| 0 <= j < ws@.len() ==> #[trigger] ws@[j]@ == words(out@)[j],
            joined@ == join_words(words(out@).take(k as int)),
        decreases ws.len() - k,
    {
        let ghost prev = words(out@).take(k as int);
        assert(words(out@).take(k + 1).drop_last() =~= prev);
        if k > 0 {
            joined.push(' ');
        }
        extend_chars(&mut joined, ws[k].as_slice());
        proof {
            if k > 0 {
                assert(joined@ =~= join_words(prev) + seq![' '] + ws@[k as int]@);
            } else {
                assert(joined@ =~= ws@[0]@);
            }
        }
        k += 1;
    }
    assert(words(out@).take(ws@.len() as int) =~= words(out@));
    string_of(joined.as_slice())
}

// ---------------------------------------------------------------------------
// Descriptor files and disc tracks
// ---------------------------------------------------------------------------

/// Which descriptor files (`.m3u`, `.cue`, `.gdi`, `.toc`, `.ccd`) live in
/// one directory.
#[derive(Debug, Clone, Copy, PartialEq, Eq, Structural, Default)]
pub struct DescriptorPresence {
    pub m3u: bool,
    pub cue: bool,
    pub gdi: bool,
    pub toc: bool,
    pub ccd: bool,
}

/// Some name in the list has the given ASCII-lower-cased extension.
pub open spec fn has_extension(names: Seq<Seq<char>>, ext: Seq<char>) -> bool {
    exists|i: int| 0 <= i < names.len() && #[trigger] lower_extension_of(names[i]) == Some(ext)
}

/// Descriptor presence for a directory whose entries have the given names.
pub open spec fn presence_of(names: Seq<Seq<char>>) -> DescriptorPresence {
    DescriptorPresence {
        m3u: has_extension(names, "m3u"@),
        cue: has_extension(names, "cue"@),
        gdi: has_extension(names, "gdi"@),
        toc: has_extension(names, "toc"@),
        ccd: has_extension(names, "ccd"@),
    }
}

pub open spec fn names_view(names: Seq<String>) -> Seq<Seq<char>> {
    names.map_values(|s: String| s@)
}

/// Which descriptor files are among the entries of a directory, judged by
/// each entry's (ASCII-case-insensitive) extension.
pub fn descriptor_presence(entry_names: &Vec<String>) -> (r: DescriptorPresence)
    ensures
        r == presence_of(names_view(entry_names@)),
{
    let mut out = DescriptorPresence { m3u: false, cue: false, gdi: false, toc: false, ccd: false };
    let ghost names = names_view(entry_names@);
    let mut i: usize = 0;
    while i < entry_names.len()
        invariant
            i <= entry_names@.len(),
            names == names_view(entry_names@),
            out == presence_of(names.take(i as int)),
        decreases entry_names.len() - i,
    {
        let ghost pre = names.take(i as int);
        let ghost now = names.take(i + 1);
        let name = chars_of(entry_names[i].as_str());
        assert(now[i as int] == name@);
        let e = lower_extension(name.as_slice());
        let is_m3u = ext_eq(&e, "m3u");
        let is_cue = ext_eq(&e, "cue");
        let is_gdi = ext_eq(&e, "gdi");
        let is_toc = ext_eq(&e, "toc");
        let is_ccd = ext_eq(&e, "ccd");
        proof {
            assert forall|x: Seq<char>| has_extension(now, x) == (has_extension(pre, x) || lower_extension_of(name@) == Some(x)) by {
                if has_extension(pre, x) {
                    let j = choose|j: int| 0 <= j < pre.len() && #[trigger] lower_extension_of(pre[j]) == Some(x);
                    assert(now[j] == pre[j]);
                }
                if has_extension(now, x) {
                    let j = choose|j: int| 0 <= j < now.len() && #[trigger] lower_extension_of(now[j]) == Some(x);
                    if j < i {
                        assert(now[j] == pre[j]);
                    }
                }
            }
        }
        out = DescriptorPresence {
            m3u: out.m3u || is_m3u,
            cue: out.cue || is_cue,
            gdi: out.gdi || is_gdi,
            toc: out.toc || is_toc,
            ccd: out.ccd || is_ccd,
        };
        i += 1;
    }
    assert(names.take(entry_names@.len() as int) =~= names);
    out
}

fn ext_eq(e: &Option<Vec<char>>, s: &str) -> (r: bool)
    ensures
        r == (e matches Some(v) && v@ == s@),
{
    match e {
        Some(v) => {
            let sc = chars_of(s);
            chars_eq(v.as_slice(), sc.as_slice())
        },
        None => false,
    }
}

/// A data file that a sibling descriptor already represents (a `.bin`
/// track next to a `.cue`, a `.cue` under an `.m3u` playlist, ...).
pub open spec fn claimed_by_sibling(ext_lower: Seq<char>, s: DescriptorPresence) -> bool {
    if ext_lower == "bin"@ {
        s.cue || s.gdi || s.toc || s.ccd
    } else if ext_lower == "img"@ {
        s.ccd || s.cue
    } else if ext_lower == "iso"@ {
        s.cue || s.m3u
    } else if ext_lower == "raw"@ {
        s.gdi || s.cue
    } else if ext_lower == "sub"@ {
        s.ccd
    } else if ext_lower == "ecm"@ {
        s.cue || s.gdi || s.toc || s.ccd
    } else if ext_lower == "cue"@ || ext_lower == "gdi"@ {
        s.m3u
    } else {
        false
    }
}

/// Returns true when this file is redundant given the sibling descriptors:
/// the descriptor already represents the same disc.
pub fn is_claimed_by_sibling(ext_lower: &str, siblings: DescriptorPresence) -> (r: bool)
    ensures
        r == claimed_by_sibling(ext_lower@, siblings),
{
    let e = chars_of(ext_lower);
    let s = siblings;
    if is(&e, "bin") {
        s.cue || s.gdi || s.toc || s.ccd
    } else if is(&e, "img") {
        s.ccd || s.cue
    } else if is(&e, "iso") {
        s.cue || s.m3u
    } else if is(&e, "raw") {
        s.gdi || s.cue
    } else if is(&e, "sub") {
        s.ccd
    } else if is(&e, "ecm") {
        s.cue || s.gdi || s.toc || s.ccd
    } else if is(&e, "cue") || is(&e, "gdi") {
        s.m3u
    } else {
        false
    }
}

fn is(e: &Vec<char>, s: &str) -> (r: bool)
    ensures
        r == (e@ == s@),
{
    let sc = chars_of(s);
    chars_eq(e.as_slice(), sc.as_slice())
}

/// Descriptor formats (`.cue`, `.m3u`, `.gdi`, `.toc`, `.ccd`): tiny text
/// files that are never filtered out by size.
pub open spec fn is_descriptor(ext_lower: Seq<char>) -> bool {
    ext_lower == "cue"@ || ext_lower == "m3u"@ || ext_lower == "gdi"@ || ext_lower == "toc"@
        || ext_lower == "ccd"@
}

/// Files smaller than this are not games (stub shims, README.bat, ...).
pub const MIN_FILE_BYTES: u64 = 16384;

/// Maximum directory depth the library walk descends.
pub const MAX_DEPTH: usize = 6;

// ---------------------------------------------------------------------------
// Library entries
// ---------------------------------------------------------------------------

/// The filesystem-derived part of a library entry. `M` is the file's
/// modification time, carried through unchanged.
#[derive(Debug, Clone)]
pub struct FileRecord<M> {
    /// Stable id: hex of the first 12 bytes of the SHA-256 of the
    /// normalised stem, a `|` and the little-endian file size.
    pub id: String,
    pub path: String,
    pub file_name: String,
    pub stem: String,
    /// Lower-cased extension without the dot.
    pub extension: String,
    pub size_bytes: u64,
    pub modified: M,
    pub platform: Platform,
}

/// A library entry: a scanned file plus what enrichment attached to it
/// later: the metadata `E`, the path of a cached cover image, and when it
/// was last looked up (`M`, the timestamp type).
#[derive(Debug, Clone)]
pub struct LibraryEntry<M, E> {
    pub file: FileRecord<M>,
    pub igdb: Option<E>,
    pub cover_local_path: Option<String>,
    pub last_enriched: Option<M>,
}

/// The bytes that are hashed to form an entry id.
pub open spec fn id_preimage(stem: Seq<char>, size: u64) -> Seq<u8> {
    vstd::utf8::encode_utf8(normalised(stem)) + seq!['|' as u8] + le_bytes(size as nat, 8)
}

/// The stable id of a file with the given stem and size.
pub open spec fn entry_id_of(stem: Seq<char>, size: u64) -> Seq<char> {
    hex_bytes(sha256_digest(id_preimage(stem, size)).take(12))
}

/// Stable id for a file: hash of the normalised stem and the size, so it
/// survives moves, renames within tag annotations and re-scans.
pub fn entry_id(stem: &str, size_bytes: u64) -> (r: String)
    ensures
        r@ == entry_id_of(stem@, size_bytes),
{
    let n = normalise_for_hash(stem);
    let mut data: Vec<u8> = Vec::new();
    push_bytes(&mut data, n.as_str().as_bytes());
    data.push(124u8);
    push_le_bytes(&mut data, size_bytes as u128, 8);
    assert(data@ =~= id_preimage(stem@, size_bytes));
    let digest = sha256(data.as_slice());
    let mut first: Vec<u8> = Vec::new();
    let mut i: usize = 0;
    while i < 12
        invariant
            i <= 12,
            digest@.len() == 32,
            first@ == digest@.take(i as int),
        decreases 12 - i,
    {
        first.push(digest[i]);
        assert(digest@.take(i as int).push(digest@[i as int]) =~= digest@.take(i + 1));
        i += 1;
    }
    hex_encode(first.as_slice())
}

/// The record the scanner keeps for a file, or `None` when the file is not
/// a game: its lower-cased extension is unknown, a sibling descriptor
/// already represents it, or it is a non-descriptor below `MIN_FILE_BYTES`.
/// Ambiguous formats are refined from the path, name and size.
pub open spec fn candidate_platform(
    path: Seq<char>,
    file_name: Seq<char>,
    ext: Seq<char>,
    size: u64,
    siblings: DescriptorPresence,
) -> Option<Platform> {
    let ext_lower = lowercase(ext);
    match lookup(ext_table(), ext_lower) {
        None => None,
        Some(p) => if claimed_by_sibling(ext_lower, siblings) || (!is_descriptor(ext_lower) && size
            < MIN_FILE_BYTES) {
            None
        } else {
            Some(
                refined_platform(
                    p,
                    lowercase(path),
                    lowercase(file_name),
                    path_lower_extension(path),
                    size,
                ),
            )
        },
    }
}

/// Decide whether a file met by the library walk is a game and, if so,
/// build its record. `ext` is the file's extension as found on disk,
/// `siblings` the descriptor presence of its directory.
pub fn scan_candidate<M>(
    path: &str,
    file_name: &str,
    stem: &str,
    ext: &str,
    size_bytes: u64,
    modified: M,
    siblings: DescriptorPresence,
) -> (r: Option<FileRecord<M>>)
    ensures
        r is Some <==> candidate_platform(path@, file_name@, ext@, size_bytes, siblings) is Some,
        r matches Some(f) ==> {
            &&& f.platform == candidate_platform(
                path@,
                file_name@,
                ext@,
                size_bytes,
                siblings,
            )->0
            &&& f.id@ == entry_id_of(stem@, size_bytes)
            &&& f.path@ == path@
            &&& f.file_name@ == file_name@
            &&& f.stem@ == stem@
            &&& f.extension@ == lowercase(ext@)
            &&& f.size_bytes == size_bytes
            &&& f.modified == modified
        },
{
    let ext_lower = to_lowercase(ext);
    let initial = match platform_for_extension(ext_lower.as_str()) {
        None => return None,
        Some(p) => p,
    };
    let el = chars_of(ext_lower.as_str());
    let descriptor = is(&el, "cue") || is(&el, "m3u") || is(&el, "gdi") || is(&el, "toc") || is(
        &el,
        "ccd",
    );
    if is_claimed_by_sibling(ext_lower.as_str(), siblings) || (!descriptor && size_bytes
        < MIN_FILE_BYTES) {
        return None;
    }
    let platform = refine_ambiguous(initial, path, file_name, size_bytes);
    Some(
        FileRecord {
            id: entry_id(stem, size_bytes),
            path: owned(path),
            file_name: owned(file_name),
            stem: owned(stem),
            extension: ext_lower,
            size_bytes,
            modified,
            platform,
        },
    )
}


// ---------------------------------------------------------------------------
// Merging a scan into the cached library
// ---------------------------------------------------------------------------

/// Platform kept when an entry is re-observed: the fresh classification
/// wins, except that a specific platform is never downgraded to `Other`.
pub open spec fn merged_platform(old: Platform, fresh: Platform) -> Platform {
    if old == Platform::Other || fresh != Platform::Other {
        fresh
    } else {
        old
    }
}

/// Entries keyed by id; a later entry with the same id replaces an earlier one.
pub open spec fn by_id<M, E>(s: Seq<LibraryEntry<M, E>>) -> Map<Seq<char>, LibraryEntry<M, E>>
    decreases s.len(),
{
    if s.len() == 0 {
        Map::empty()
    } else {
        by_id(s.drop_last()).insert(s.last().file.id@, s.last())
    }
}

/// An existing entry re-observed by a scan: every filesystem-derived field
/// comes from the fresh record, the platform follows `merged_platform`, and
/// the enrichment is preserved.
pub open spec fn refreshed<M, E>(e: LibraryEntry<M, E>, r: FileRecord<M>) -> LibraryEntry<M, E> {
    LibraryEntry {
        file: FileRecord {
            id: r.id,
            path: r.path,
            file_name: r.file_name,
            stem: r.stem,
            extension: r.extension,
            size_bytes: r.size_bytes,
            modified: r.modified,
            platform: merged_platform(e.file.platform, r.platform),
        },
        igdb: e.igdb,
        cover_local_path: e.cover_local_path,
        last_enriched: e.last_enriched,
    }
}

/// The library after observing one file.
pub open spec fn observe<M, E>(m: Map<Seq<char>, LibraryEntry<M, E>>, r: FileRecord<M>) -> Map<
    Seq<char>,
    LibraryEntry<M, E>,
> {
    if m.contains_key(r.id@) {
        m.insert(r.id@, refreshed(m[r.id@], r))
    } else {
        m.insert(r.id@, LibraryEntry { file: r, igdb: None, cover_local_path: None, last_enriched: None })
    }
}

/// The library after observing every file of a scan, in walk order.
pub open spec fn after_scan<M, E>(
    m: Map<Seq<char>, LibraryEntry<M, E>>,
    obs: Seq<FileRecord<M>>,
) -> Map<Seq<char>, LibraryEntry<M, E>>
    decreases obs.len(),
{
    if obs.len() == 0 {
        m
    } else {
        observe(after_scan(m, obs.drop_last()), obs.last())
    }
}

/// How many observations re-found an entry that was already known.
pub open spec fn kept_count<M, E>(
    m: Map<Seq<char>, LibraryEntry<M, E>>,
    obs: Seq<FileRecord<M>>,
) -> nat
    decreases obs.len(),
{
    if obs.len() == 0 {
        0
    } else {
        kept_count(m, obs.drop_last()) + if after_scan(m, obs.drop_last()).contains_key(
            obs.last().id@,
        ) {
            1nat
        } else {
            0nat
        }
    }
}

/// Ids of the observed files.
pub open spec fn observed_ids<M>(obs: Seq<FileRecord<M>>) -> Set<Seq<char>> {
    obs.map_values(|r: FileRecord<M>| r.id@).to_set()
}

/// The library a scan produces: the cached entries updated by every
/// observation, restricted to the ids the scan actually saw (entries whose
/// file is gone are dropped).
pub open spec fn merged_library<M, E>(
    existing: Seq<LibraryEntry<M, E>>,
    obs: Seq<FileRecord<M>>,
) -> Map<Seq<char>, LibraryEntry<M, E>> {
    after_scan(by_id(existing), obs).restrict(observed_ids(obs))
}

/// No two entries share an id.
pub open spec fn distinct_ids<M, E>(s: Seq<LibraryEntry<M, E>>) -> bool {
    forall|i: int, j: int|
        0 <= i < s.len() && 0 <= j < s.len() && i != j ==> s[i].file.id@ != s[j].file.id@
}

/// Lexicographic order on characters by code point (the order of `String`).
pub open spec fn lex_le(a: Seq<char>, b: Seq<char>) -> bool
    decreases a.len(),
{
    if a.len() == 0 {
        true
    } else if b.len() == 0 {
        false
    } else if (a[0] as u32) < (b[0] as u32) {
        true
    } else if (a[0] as u32) > (b[0] as u32) {
        false
    } else {
        lex_le(a.drop_first(), b.drop_first())
    }
}

/// Sort key of an entry: its lower-cased file name.
pub open spec fn name_key<M, E>(e: LibraryEntry<M, E>) -> Seq<char> {
    lowercase(e.file.file_name@)
}

/// Entries in non-decreasing order of lower-cased file name.
pub open spec fn sorted_by_name<M, E>(s: Seq<LibraryEntry<M, E>>) -> bool {
    forall|i: int, j: int| 0 <= i < j < s.len() ==> lex_le(name_key(s[i]), name_key(s[j]))
}

pub proof fn lemma_lex_total(a: Seq<char>, b: Seq<char>)
    ensures
        lex_le(a, b) || lex_le(b, a),
    decreases a.len(),
{
    if a.len() > 0 && b.len() > 0 && (a[0] as u32) == (b[0] as u32) {
        lemma_lex_total(a.drop_first(), b.drop_first());
    }
}

pub proof fn lemma_lex_trans(a: Seq<char>, b: Seq<char>, c: Seq<char>)
    requires
        lex_le(a, b),
        lex_le(b, c),
    ensures
        lex_le(a, c),
    decreases a.len(),
{
    if a.len() > 0 && b.len() > 0 && c.len() > 0 && (a[0] as u32) == (b[0] as u32) && (b[0] as u32)
        == (c[0] as u32) {
        lemma_lex_trans(a.drop_first(), b.drop_first(), c.drop_first());
    }
}

/// Lexicographic `<=` on character vectors.
pub fn lex_le_exec(a: &[char], b: &[char]) -> (r: bool)
    ensures
        r == lex_le(a@, b@),
{
    let mut i: usize = 0;
    assert(a@.skip(0) =~= a@ && b@.skip(0) =~= b@);
    loop
        invariant
            i <= a.len(),
            i <= b.len(),
            lex_le(a@, b@) == lex_le(a@.skip(i as int), b@.skip(i as int)),
        decreases a.len() - i,
    {
        if i == a.len() {
            return true;
        }
        if i == b.len() {
            return false;
        }
        assert(a@.skip(i as int)[0] == a@[i as int] && b@.skip(i as int)[0] == b@[i as int]);
        if (a[i] as u32) < (b[i] as u32) {
            return true;
        }
        if (a[i] as u32) > (b[i] as u32) {
            return false;
        }
        assert(a@.skip(i as int).drop_first() =~= a@.skip(i + 1));
        assert(b@.skip(i as int).drop_first() =~= b@.skip(i + 1));
        i += 1;
    }
}

/// For entries with distinct ids, `by_id` holds exactly their ids, each
/// mapped to its own entry.
pub proof fn lemma_by_id_distinct<M, E>(s: Seq<LibraryEntry<M, E>>)
    requires
        distinct_ids(s),
    ensures
        forall|k: Seq<char>|
            by_id(s).contains_key(k) <==> exists|i: int| 0 <= i < s.len() && s[i].file.id@ == k,
        forall|i: int| 0 <= i < s.len() ==> #[trigger] by_id(s)[s[i].file.id@] == s[i],
    decreases s.len(),
{
    if s.len() > 0 {
        let t = s.drop_last();
        assert(distinct_ids(t));
        lemma_by_id_distinct(t);
        let n = s.len() - 1;
        assert(s[n] == s.last());
        assert(by_id(s) == by_id(t).insert(s[n].file.id@, s[n]));
        assert forall|k: Seq<char>|
            by_id(s).contains_key(k) <==> exists|i: int| 0 <= i < s.len() && s[i].file.id@ == k by {
            if by_id(s).contains_key(k) && k == s[n].file.id@ {
                assert(s[n].file.id@ == k);
            }
            if by_id(s).contains_key(k) && k != s.last().file.id@ {
                assert(by_id(t).contains_key(k));
                let i = choose|i: int| 0 <= i < t.len() && t[i].file.id@ == k;
                assert(s[i] == t[i]);
            }
            if exists|i: int| 0 <= i < s.len() && s[i].file.id@ == k {
                let i = choose|i: int| 0 <= i < s.len() && s[i].file.id@ == k;
                if i < s.len() - 1 {
                    assert(s[i] == t[i]);
                }
            }
        }
        assert forall|i: int| 0 <= i < s.len() implies #[trigger] by_id(s)[s[i].file.id@] == s[i] by {
            if i < s.len() - 1 {
                assert(s[i] == t[i]);
                assert(s[i].file.id@ != s.last().file.id@);
            }
        }
    }
}

/// Prepending an entry only adds it when its id is new.
pub proof fn lemma_by_id_prepend<M, E>(e: LibraryEntry<M, E>, t: Seq<LibraryEntry<M, E>>)
    ensures
        by_id(seq![e] + t) == if by_id(t).contains_key(e.file.id@) {
            by_id(t)
        } else {
            by_id(t).insert(e.file.id@, e)
        },
    decreases t.len(),
{
    if t.len() == 0 {
        assert(seq![e] + t =~= seq![e]);
        assert(seq![e].drop_last() =~= Seq::<LibraryEntry<M, E>>::empty());
        assert(by_id(t) =~= Map::<Seq<char>, LibraryEntry<M, E>>::empty());
        assert(by_id(seq![e]) == by_id(seq![e].drop_last()).insert(e.file.id@, e));
        assert(by_id(seq![e] + t) == by_id(t).insert(e.file.id@, e));
    } else {
        let t2 = t.drop_last();
        assert((seq![e] + t).drop_last() =~= seq![e] + t2);
        assert((seq![e] + t).last() == t.last());
        assert(by_id(seq![e] + t) == by_id(seq![e] + t2).insert(t.last().file.id@, t.last()));
        assert(by_id(t) == by_id(t2).insert(t.last().file.id@, t.last()));
        lemma_by_id_prepend(e, t2);
        if by_id(t).contains_key(e.file.id@) {
            assert(by_id(seq![e] + t) =~= by_id(t));
        } else {
            assert(by_id(seq![e] + t) =~= by_id(t).insert(e.file.id@, e));
        }
    }
}

/// Removing the entry with id `k` and appending `x` (also with id `k`)
/// replaces the value for `k`.
pub proof fn lemma_by_id_replace<M, E>(s: Seq<LibraryEntry<M, E>>, i: int, x: LibraryEntry<M, E>)
    requires
        distinct_ids(s),
        0 <= i < s.len(),
        x.file.id@ == s[i].file.id@,
    ensures
        distinct_ids(s.remove(i).push(x)),
        by_id(s.remove(i).push(x)) == by_id(s).insert(x.file.id@, x),
{
    let r = s.remove(i);
    let t = r.push(x);
    assert forall|a: int, b: int| 0 <= a < t.len() && 0 <= b < t.len() && a != b implies t[a].file.id@
        != t[b].file.id@ by {
        let sa = if a < i { a } else { a + 1 };
        let sb = if b < i { b } else { b + 1 };
        if a < t.len() - 1 && b < t.len() - 1 {
            assert(t[a] == s[sa] && t[b] == s[sb]);
        } else if a == t.len() - 1 {
            assert(t[b] == s[sb]);
        } else {
            assert(t[a] == s[sa]);
        }
    }
    assert(distinct_ids(r)) by {
        assert forall|a: int, b: int| 0 <= a < r.len() && 0 <= b < r.len() && a != b implies r[a].file.id@
            != r[b].file.id@ by {
            assert(t[a] == r[a] && t[b] == r[b]);
        }
    }
    lemma_by_id_distinct(s);
    lemma_by_id_distinct(r);
    assert(t.drop_last() =~= r);
    assert(by_id(t) == by_id(r).insert(x.file.id@, x));
    assert forall|k: Seq<char>| #[trigger] by_id(t).contains_key(k) == by_id(s).insert(
        x.file.id@,
        x,
    ).contains_key(k) by {
        if exists|j: int| 0 <= j < s.len() && s[j].file.id@ == k {
            let j = choose|j: int| 0 <= j < s.len() && s[j].file.id@ == k;
            if j < i {
                assert(r[j] == s[j]);
            } else if j > i {
                assert(r[j - 1] == s[j]);
            }
        }
        if exists|j: int| 0 <= j < r.len() && r[j].file.id@ == k {
            let j = choose|j: int| 0 <= j < r.len() && r[j].file.id@ == k;
            if j < i {
                assert(r[j] == s[j]);
            } else {
                assert(r[j] == s[j + 1]);
            }
        }
    }
    assert forall|k: Seq<char>| #[trigger] by_id(t).contains_key(k) implies by_id(t)[k] == by_id(s).insert(
        x.file.id@,
        x,
    )[k] by {
        if k != x.file.id@ {
            let j = choose|j: int| 0 <= j < r.len() && r[j].file.id@ == k;
            if j < i {
                assert(r[j] == s[j]);
                assert(by_id(s)[s[j].file.id@] == s[j]);
                assert(by_id(r)[r[j].file.id@] == r[j]);
            } else {
                assert(r[j] == s[j + 1]);
                assert(by_id(s)[s[j + 1].file.id@] == s[j + 1]);
                assert(by_id(r)[r[j].file.id@] == r[j]);
            }
        }
    }
    assert(by_id(t) =~= by_id(s).insert(x.file.id@, x));
}

/// Inserting an entry with a fresh id at any position adds it to `by_id`.
pub proof fn lemma_by_id_insert<M, E>(s: Seq<LibraryEntry<M, E>>, p: int, x: LibraryEntry<M, E>)
    requires
        distinct_ids(s),
        0 <= p <= s.len(),
        !by_id(s).contains_key(x.file.id@),
    ensures
        distinct_ids(s.insert(p, x)),
        by_id(s.insert(p, x)) == by_id(s).insert(x.file.id@, x),
{
    let t = s.insert(p, x);
    lemma_by_id_distinct(s);
    assert forall|j: int| 0 <= j < s.len() implies s[j].file.id@ != x.file.id@ by {
        assert(by_id(s).contains_key(s[j].file.id@));
    }
    assert forall|a: int, b: int| 0 <= a < t.len() && 0 <= b < t.len() && a != b implies t[a].file.id@
        != t[b].file.id@ by {
        let sa = if a < p { a } else { a - 1 };
        let sb = if b < p { b } else { b - 1 };
        if a != p && b != p {
            assert(t[a] == s[sa] && t[b] == s[sb]);
        } else if a == p {
            assert(t[b] == s[sb]);
        } else {
            assert(t[a] == s[sa]);
        }
    }
    lemma_by_id_distinct(t);
    assert forall|k: Seq<char>| #[trigger] by_id(t).contains_key(k) == by_id(s).insert(
        x.file.id@,
        x,
    ).contains_key(k) by {
        if exists|j: int| 0 <= j < s.len() && s[j].file.id@ == k {
            let j = choose|j: int| 0 <= j < s.len() && s[j].file.id@ == k;
            if j < p {
                assert(t[j] == s[j]);
            } else {
                assert(t[j + 1] == s[j]);
            }
        }
        assert(t[p] == x);
    }
    assert forall|k: Seq<char>| #[trigger] by_id(t).contains_key(k) implies by_id(t)[k] == by_id(s).insert(
        x.file.id@,
        x,
    )[k] by {
        if k != x.file.id@ {
            let j = choose|j: int| 0 <= j < s.len() && s[j].file.id@ == k;
            if j < p {
                assert(t[j] == s[j]);
                assert(by_id(t)[t[j].file.id@] == t[j]);
            } else {
                assert(t[j + 1] == s[j]);
                assert(by_id(t)[t[j + 1].file.id@] == t[j + 1]);
            }
        } else {
            assert(t[p] == x);
            assert(by_id(t)[t[p].file.id@] == t[p]);
        }
    }
    assert(by_id(t) =~= by_id(s).insert(x.file.id@, x));
}

/// Index of the entry with the given id, if any.
fn index_of_id<M, E>(s: &Vec<LibraryEntry<M, E>>, id: &String) -> (r: Option<usize>)
    ensures
        r matches Some(i) ==> i < s@.len() && s@[i as int].file.id@ == id@,
        r is None ==> forall|i: int| 0 <= i < s@.len() ==> s@[i].file.id@ != id@,
{
    let mut i: usize = 0;
    while i < s.len()
        invariant
            i <= s@.len(),
            forall|j: int| 0 <= j < i ==> s@[j].file.id@ != id@,
        decreases s.len() - i,
    {
        if s[i].file.id == *id {
            return Some(i);
        }
        i += 1;
    }
    None
}

/// Whether the id is among the given strings.
fn has_id(ids: &Vec<String>, id: &String) -> (r: bool)
    ensures
        r == exists|i: int| 0 <= i < ids@.len() && ids@[i]@ == id@,
{
    let mut i: usize = 0;
    while i < ids.len()
        invariant
            i <= ids@.len(),
            forall|j: int| 0 <= j < i ==> ids@[j]@ != id@,
        decreases ids.len() - i,
    {
        if ids[i] == *id {
            return true;
        }
        i += 1;
    }
    false
}

/// Outcome of merging a scan into the cached library.
pub struct MergeOutcome<M, E> {
    /// Observations that created a new entry.
    pub games_new: usize,
    /// Observations that re-found a known entry.
    pub games_kept: usize,
    /// The resulting library, sorted by lower-cased file name.
    pub entries: Vec<LibraryEntry<M, E>>,
}

/// Merge the records observed by a scan (in walk order) into the cached
/// entries. Known entries (by stable id) keep their enrichment and get fresh
/// filesystem fields; a specific platform is never downgraded to `Other`;
/// new ids become fresh entries; entries the scan did not see are dropped.
/// The result holds each id once and is sorted by lower-cased file name.
pub fn merge_scan<M, E>(existing: Vec<LibraryEntry<M, E>>, observed: Vec<FileRecord<M>>) -> (r:
    MergeOutcome<M, E>)
    ensures
        r.games_kept == kept_count(by_id(existing@), observed@),
        r.games_new + r.games_kept == observed@.len(),
        distinct_ids(r.entries@),
        forall|i: int|
            0 <= i < r.entries@.len() ==> merged_library(existing@, observed@).contains_key(
                #[trigger] r.entries@[i].file.id@,
            ) && merged_library(existing@, observed@)[r.entries@[i].file.id@] == r.entries@[i],
        forall|k: Seq<char>|
            merged_library(existing@, observed@).contains_key(k) ==> exists|i: int|
                0 <= i < r.entries@.len() && #[trigger] r.entries@[i].file.id@ == k,
        sorted_by_name(r.entries@),
{
    let ghost ex0 = existing@;
    let ghost ob0 = observed@;
    // 1. Index the cache by id; the last entry with a given id wins.
    let ghost n0 = ex0.len();
    let mut ex = existing;
    let mut acc: Vec<LibraryEntry<M, E>> = Vec::new();
    assert(ex0.take(n0 as int) =~= ex0);
    assert(ex0.skip(n0 as int) =~= Seq::<LibraryEntry<M, E>>::empty());
    assert(by_id(acc@) =~= by_id(ex0.skip(n0 as int)));
    while ex.len() > 0
        invariant
            n0 == ex0.len(),
            ex@.len() <= n0,
            ex@ == ex0.take(ex@.len() as int),
            distinct_ids(acc@),
            by_id(acc@) == by_id(ex0.skip(ex@.len() as int)),
        decreases ex@.len(),
    {
        let ghost m = ex@.len();
        let e = ex.pop().unwrap();
        assert(e == ex0[m - 1]);
        assert(ex0.skip(m - 1) =~= seq![e] + ex0.skip(m as int));
        proof {
            lemma_by_id_prepend(e, ex0.skip(m as int));
            lemma_by_id_distinct(acc@);
        }
        match index_of_id(&acc, &e.file.id) {
            Some(_) => {},
            None => {
                let ghost before = acc@;
                acc.push(e);
                proof {
                    assert forall|a: int, b: int|
                        0 <= a < acc@.len() && 0 <= b < acc@.len() && a != b implies acc@[a].file.id@
                        != acc@[b].file.id@ by {
                        if a < before.len() && b < before.len() {
                            assert(acc@[a] == before[a] && acc@[b] == before[b]);
                        } else if a < before.len() {
                            assert(acc@[a] == before[a]);
                        } else {
                            assert(acc@[b] == before[b]);
                        }
                    }
                    assert(acc@.drop_last() =~= before);
                }
            },
        }
        assert(ex@ =~= ex0.take(ex@.len() as int));
    }
    assert(ex0.skip(0) =~= ex0);
    // 2. Reverse the observations so they can be popped in walk order.
    let n_obs: usize = observed.len();
    let ghost nobs = ob0.len();
    let mut obs = observed;
    let mut rev: Vec<FileRecord<M>> = Vec::new();
    assert(ob0.take(nobs as int) =~= ob0);
    while obs.len() > 0
        invariant
            nobs == ob0.len(),
            obs@.len() + rev@.len() == nobs,
            obs@ == ob0.take(obs@.len() as int),
            forall|i: int| 0 <= i < rev@.len() ==> rev@[i] == ob0[nobs - 1 - i],
        decreases obs@.len(),
    {
        let x = obs.pop().unwrap();
        rev.push(x);
        assert(obs@ =~= ob0.take(obs@.len() as int));
    }
    // 3. Observe every record in walk order.
    let ghost init = by_id(ex0);
    let mut kept: usize = 0;
    let mut seen: Vec<String> = Vec::new();
    let mut j: usize = 0;
    while rev.len() > 0
        invariant
            nobs == ob0.len(),
            nobs == n_obs,
            init == by_id(ex0),
            j + rev@.len() == nobs,
            forall|i: int| 0 <= i < rev@.len() ==> rev@[i] == ob0[nobs - 1 - i],
            distinct_ids(acc@),
            by_id(acc@) == after_scan(init, ob0.take(j as int)),
            kept == kept_count(init, ob0.take(j as int)),
            kept <= j,
            seen@.len() == j,
            forall|i: int| 0 <= i < j ==> #[trigger] seen@[i]@ == ob0[i].id@,
        decreases rev@.len(),
    {
        let r = rev.pop().unwrap();
        assert(r == ob0[j as int]);
        let ghost pre = ob0.take(j as int);
        assert(ob0.take(j + 1).drop_last() =~= pre);
        assert(ob0.take(j + 1).last() == r);
        proof {
            lemma_by_id_distinct(acc@);
        }
        seen.push(r.id.clone());
        match index_of_id(&acc, &r.id) {
            Some(i) => {
                let ghost before = acc@;
                let old = acc.remove(i);
                let merged = LibraryEntry {
                    file: FileRecord {
                        id: r.id,
                        path: r.path,
                        file_name: r.file_name,
                        stem: r.stem,
                        extension: r.extension,
                        size_bytes: r.size_bytes,
                        modified: r.modified,
                        platform: if old.file.platform == Platform::Other || r.platform
                            != Platform::Other {
                            r.platform
                        } else {
                            old.file.platform
                        },
                    },
                    igdb: old.igdb,
                    cover_local_path: old.cover_local_path,
                    last_enriched: old.last_enriched,
                };
                assert(merged == refreshed(before[i as int], r));
                acc.push(merged);
                kept += 1;
                proof {
                    lemma_by_id_replace(before, i as int, merged);
                    assert(by_id(before)[r.id@] == before[i as int]);
                }
            },
            None => {
                let ghost before = acc@;
                acc.push(LibraryEntry { file: r, igdb: None, cover_local_path: None, last_enriched: None });
                proof {
                    lemma_by_id_insert(before, before.len() as int, acc@.last());
                    assert(before.insert(before.len() as int, acc@.last()) =~= acc@);
                }
            },
        }
        j += 1;
    }
    proof {
        assert(ob0.take(nobs as int) =~= ob0);
    }
    // 4. Drop entries whose file the scan did not see.
    let ghost full = acc@;
    let mut kept_entries: Vec<LibraryEntry<M, E>> = Vec::new();
    while acc.len() > 0
        invariant
            nobs == ob0.len(),
            by_id(full) == after_scan(by_id(ex0), ob0),
            acc@.len() <= full.len(),
            acc@ == full.take(acc@.len() as int),
            distinct_ids(full),
            distinct_ids(kept_entries@),
            forall|i: int| 0 <= i < kept_entries@.len() ==> exists|q: int| acc@.len() <= q < full.len()
                && full[q] == #[trigger] kept_entries@[i],
            forall|q: int|
                acc@.len() <= q < full.len() && observed_ids(ob0).contains(full[q].file.id@)
                    ==> exists|i: int| 0 <= i < kept_entries@.len() && #[trigger] kept_entries@[i] == full[q],
            forall|i: int|
                0 <= i < kept_entries@.len() ==> observed_ids(ob0).contains(
                    #[trigger] kept_entries@[i].file.id@,
                ),
            seen@.len() == nobs,
            forall|i: int| 0 <= i < nobs ==> #[trigger] seen@[i]@ == ob0[i].id@,
        decreases acc@.len(),
    {
        let ghost m = acc@.len();
        let e = acc.pop().unwrap();
        assert(e == full[m - 1]);
        let ghost before = kept_entries@;
        proof {
            assert(observed_ids(ob0).contains(e.file.id@) == exists|i: int|
                0 <= i < nobs && #[trigger] seen@[i]@ == e.file.id@) by {
                let ids = ob0.map_values(|r: FileRecord<M>| r.id@);
                if observed_ids(ob0).contains(e.file.id@) {
                    assert(ids.contains(e.file.id@));
                    let i = choose|i: int| 0 <= i < ids.len() && #[trigger] ids[i] == e.file.id@;
                    assert(seen@[i]@ == e.file.id@);
                }
                if exists|i: int| 0 <= i < nobs && #[trigger] seen@[i]@ == e.file.id@ {
                    let i = choose|i: int| 0 <= i < nobs && #[trigger] seen@[i]@ == e.file.id@;
                    assert(ids[i] == e.file.id@);
                    assert(ids.contains(e.file.id@));
                }
            }
        }
        if has_id(&seen, &e.file.id) {
            kept_entries.push(e);
            proof {
                assert forall|a: int, b: int|
                    0 <= a < kept_entries@.len() && 0 <= b < kept_entries@.len() && a != b implies kept_entries@[a].file.id@
                    != kept_entries@[b].file.id@ by {
                    if a < before.len() && b < before.len() {
                        assert(kept_entries@[a] == before[a] && kept_entries@[b] == before[b]);
                    } else if a < before.len() {
                        let q = choose|q: int| m <= q < full.len() && full[q] == #[trigger] before[a];
                        assert(kept_entries@[a] == before[a]);
                        assert(full[q].file.id@ != full[m - 1].file.id@);
                    } else {
                        let q = choose|q: int| m <= q < full.len() && full[q] == #[trigger] before[b];
                        assert(kept_entries@[b] == before[b]);
                        assert(full[q].file.id@ != full[m - 1].file.id@);
                    }
                }
                assert forall|i: int| 0 <= i < kept_entries@.len() implies exists|q: int| m - 1 <= q < full.len()
                    && full[q] == #[trigger] kept_entries@[i] by {
                    if i < before.len() {
                        assert(kept_entries@[i] == before[i]);
                        let q = choose|q: int| m <= q < full.len() && full[q] == #[trigger] before[i];
                    } else {
                        assert(full[m - 1] == kept_entries@[i]);
                    }
                }
                assert forall|q: int|
                    m - 1 <= q < full.len() && observed_ids(ob0).contains(full[q].file.id@)
                        implies exists|i: int| 0 <= i < kept_entries@.len() && #[trigger] kept_entries@[i] == full[q] by {
                    if q >= m {
                        let i = choose|i: int| 0 <= i < before.len() && #[trigger] before[i] == full[q];
                        assert(kept_entries@[i] == before[i]);
                    } else {
                        assert(kept_entries@[before.len() as int] == full[q]);
                    }
                }
            }
        } else {
            proof {
                assert forall|i: int| 0 <= i < kept_entries@.len() implies exists|q: int| m - 1 <= q < full.len()
                    && full[q] == #[trigger] kept_entries@[i] by {
                    let q = choose|q: int| m <= q < full.len() && full[q] == #[trigger] kept_entries@[i];
                }
            }
        }
        assert(acc@ =~= full.take(acc@.len() as int));
    }
    let filtered = kept_entries;
    proof {
        lemma_by_id_distinct(full);
        lemma_by_id_distinct(filtered@);
        let ml = merged_library(ex0, ob0);
        assert(ml == by_id(full).restrict(observed_ids(ob0)));
        assert forall|k: Seq<char>| #[trigger] by_id(filtered@).contains_key(k) == ml.contains_key(k) by {
            if by_id(filtered@).contains_key(k) {
                let i = choose|i: int| 0 <= i < filtered@.len() && filtered@[i].file.id@ == k;
                let q = choose|q: int| 0 <= q < full.len() && full[q] == #[trigger] filtered@[i];
                assert(full[q].file.id@ == k);
            }
            if ml.contains_key(k) {
                let q = choose|q: int| 0 <= q < full.len() && full[q].file.id@ == k;
                let i = choose|i: int| 0 <= i < filtered@.len() && #[trigger] filtered@[i] == full[q];
                assert(filtered@[i].file.id@ == k);
            }
        }
        assert forall|k: Seq<char>| #[trigger] by_id(filtered@).contains_key(k) implies by_id(filtered@)[k] == ml[k] by {
            let i = choose|i: int| 0 <= i < filtered@.len() && filtered@[i].file.id@ == k;
            let q = choose|q: int| 0 <= q < full.len() && full[q] == #[trigger] filtered@[i];
            assert(by_id(filtered@)[filtered@[i].file.id@] == filtered@[i]);
            assert(by_id(full)[full[q].file.id@] == full[q]);
        }
        assert(by_id(filtered@) =~= ml);
    }
    // 5. Sort by lower-cased file name (insertion sort).
    let ghost fv = filtered@;
    assert(fv.skip(fv.len() as int) =~= Seq::<LibraryEntry<M, E>>::empty());
    assert(by_id(Seq::<LibraryEntry<M, E>>::empty()) =~= Map::<Seq<char>, LibraryEntry<M, E>>::empty());
    let mut pending = filtered;
    let mut out: Vec<LibraryEntry<M, E>> = Vec::new();
    let mut keys: Vec<Vec<char>> = Vec::new();
    while pending.len() > 0
        invariant
            pending@.len() <= fv.len(),
            pending@ == fv.take(pending@.len() as int),
            distinct_ids(fv),
            distinct_ids(out@),
            by_id(out@) == by_id(fv.skip(pending@.len() as int)),
            keys@.len() == out@.len(),
            forall|i: int| 0 <= i < out@.len() ==> #[trigger] keys@[i]@ == name_key(out@[i]),
            sorted_by_name(out@),
        decreases pending@.len(),
    {
        let ghost m = pending@.len();
        let x = pending.pop().unwrap();
        let k = chars_of(to_lowercase(x.file.file_name.as_str()).as_str());
        let mut p: usize = 0;
        while p < out.len() && lex_le_exec(keys[p].as_slice(), k.as_slice())
            invariant
                p <= out@.len(),
                keys@.len() == out@.len(),
                forall|i: int| 0 <= i < p ==> lex_le(name_key(out@[i]), k@),
                forall|i: int| 0 <= i < out@.len() ==> #[trigger] keys@[i]@ == name_key(out@[i]),
            decreases out@.len() - p,
        {
            p += 1;
        }
        let ghost before = out@;
        proof {
            assert(fv.skip(m - 1) =~= seq![x] + fv.skip(m as int));
            lemma_by_id_prepend(x, fv.skip(m as int));
            lemma_by_id_distinct(fv);
            assert(fv[m - 1] == x);
            assert(!by_id(fv.skip(m as int)).contains_key(x.file.id@)) by {
                lemma_by_id_distinct(fv.skip(m as int));
                if by_id(fv.skip(m as int)).contains_key(x.file.id@) {
                    let q = choose|q: int| 0 <= q < fv.skip(m as int).len() && fv.skip(m as int)[q].file.id@ == x.file.id@;
                    assert(fv.skip(m as int)[q] == fv[m + q]);
                }
            }
            lemma_by_id_insert(before, p as int, x);
            if p < before.len() {
                lemma_lex_total(name_key(before[p as int]), k@);
            }
        }
        out.insert(p, x);
        keys.insert(p, k);
        proof {
            assert forall|a: int, b: int| 0 <= a < b < out@.len() implies lex_le(
                name_key(out@[a]),
                name_key(out@[b]),
            ) by {
                if b < p {
                    assert(out@[a] == before[a] && out@[b] == before[b]);
                } else if a > p {
                    assert(out@[a] == before[a - 1] && out@[b] == before[b - 1]);
                } else if a == p {
                    assert(out@[b] == before[b - 1]);
                    assert(lex_le(k@, name_key(before[p as int])));
                    if b - 1 > p {
                        assert(lex_le(name_key(before[p as int]), name_key(before[b - 1])));
                        lemma_lex_trans(k@, name_key(before[p as int]), name_key(before[b - 1]));
                    }
                } else if b == p {
                    assert(out@[a] == before[a]);
                } else {
                    assert(out@[a] == before[a] && out@[b] == before[b - 1]);
                }
            }
            assert forall|i: int| 0 <= i < out@.len() implies #[trigger] keys@[i]@ == name_key(out@[i]) by {
                if i < p {
                    assert(out@[i] == before[i]);
                } else if i > p {
                    assert(out@[i] == before[i - 1]);
                }
            }
        }
        assert(pending@ =~= fv.take(pending@.len() as int));
    }
    assert(fv.skip(0) =~= fv);
    proof {
        lemma_by_id_distinct(out@);
        lemma_by_id_distinct(fv);
    }
    MergeOutcome { games_new: j - kept, games_kept: kept, entries: out }
}

/// Observations never lose an entry, never touch its enrichment, and
/// never turn a specific platform into `Other`.
proof fn lemma_after_scan_keeps<M, E>(
    m: Map<Seq<char>, LibraryEntry<M, E>>,
    obs: Seq<FileRecord<M>>,
    k: Seq<char>,
)
    requires
        m.contains_key(k),
    ensures
        after_scan(m, obs).contains_key(k),
        after_scan(m, obs)[k].igdb == m[k].igdb,
        after_scan(m, obs)[k].cover_local_path == m[k].cover_local_path,
        after_scan(m, obs)[k].last_enriched == m[k].last_enriched,
        m[k].file.platform != Platform::Other ==> after_scan(m, obs)[k].file.platform
            != Platform::Other,
    decreases obs.len(),
{
    if obs.len() > 0 {
        lemma_after_scan_keeps(m, obs.drop_last(), k);
    }
}

/// A re-scan keeps what metadata enrichment attached: every entry of the
/// resulting library that was already cached keeps its metadata, cover and
/// lookup time, and a
/// specific platform is never downgraded to `Other`.
pub proof fn lemma_rescan_keeps_enrichment<M, E>(
    existing: Seq<LibraryEntry<M, E>>,
    observed: Seq<FileRecord<M>>,
    k: Seq<char>,
)
    requires
        merged_library(existing, observed).contains_key(k),
        by_id(existing).contains_key(k),
    ensures
        merged_library(existing, observed)[k].igdb == by_id(existing)[k].igdb,
        merged_library(existing, observed)[k].cover_local_path == by_id(existing)[k].cover_local_path,
        merged_library(existing, observed)[k].last_enriched == by_id(existing)[k].last_enriched,
        by_id(existing)[k].file.platform != Platform::Other ==> merged_library(existing, observed)[k].file.platform
            != Platform::Other,
{
    lemma_after_scan_keeps(by_id(existing), observed, k);
}

/// Every id a scan observed is in the resulting library, and nothing else.
pub proof fn lemma_scan_keeps_exactly_observed<M, E>(
    existing: Seq<LibraryEntry<M, E>>,
    observed: Seq<FileRecord<M>>,
    i: int,
)
    requires
        0 <= i < observed.len(),
    ensures
        merged_library(existing, observed).contains_key(observed[i].id@),
        forall|k: Seq<char>|
            #[trigger] merged_library(existing, observed).contains_key(k) ==> observed_ids(observed).contains(k),
{
    lemma_after_scan_contains(by_id(existing), observed, i);
    let ids = observed.map_values(|r: FileRecord<M>| r.id@);
    assert(ids[i] == observed[i].id@);
    assert(ids.to_set().contains(observed[i].id@));
}

proof fn lemma_after_scan_contains<M, E>(
    m: Map<Seq<char>, LibraryEntry<M, E>>,
    obs: Seq<FileRecord<M>>,
    i: int,
)
    requires
        0 <= i < obs.len(),
    ensures
        after_scan(m, obs).contains_key(obs[i].id@),
    decreases obs.len(),
{
    let last = obs.len() - 1;
    if i < last {
        lemma_after_scan_contains(m, obs.drop_last(), i);
        lemma_after_scan_keeps(after_scan(m, obs.drop_last()), seq![obs.last()], obs[i].id@);
        assert(seq![obs.last()].drop_last() =~= Seq::<FileRecord<M>>::empty());
    }
}

/// Ids ignore ROM-tag clutter: two stems that normalise alike give the
/// same id for the same size.
pub proof fn lemma_id_ignores_tags(a: Seq<char>, b: Seq<char>, size: u64)
    requires
        normalised(a) == normalised(b),
    ensures
        entry_id_of(a, size) == entry_id_of(b, size),
{
}

proof fn lemma_after_scan_last<M, E>(
    m: Map<Seq<char>, LibraryEntry<M, E>>,
    obs: Seq<FileRecord<M>>,
    i: int,
)
    requires
        0 <= i < obs.len(),
        forall|j: int| i < j < obs.len() ==> (#[trigger] obs[j]).id@ != obs[i].id@,
    ensures
        after_scan(m, obs).contains_key(obs[i].id@),
        after_scan(m, obs)[obs[i].id@].file.id == obs[i].id,
        after_scan(m, obs)[obs[i].id@].file.path == obs[i].path,
        after_scan(m, obs)[obs[i].id@].file.file_name == obs[i].file_name,
        after_scan(m, obs)[obs[i].id@].file.stem == obs[i].stem,
        after_scan(m, obs)[obs[i].id@].file.extension == obs[i].extension,
        after_scan(m, obs)[obs[i].id@].file.size_bytes == obs[i].size_bytes,
        after_scan(m, obs)[obs[i].id@].file.modified == obs[i].modified,
        obs[i].platform != Platform::Other ==> after_scan(m, obs)[obs[i].id@].file.platform
            == obs[i].platform,
    decreases obs.len(),
{
    let last = obs.len() - 1;
    if i < last {
        let pre = obs.drop_last();
        assert forall|j: int| i < j < pre.len() implies (#[trigger] pre[j]).id@ != pre[i].id@ by {
            assert(pre[j] == obs[j]);
        }
        lemma_after_scan_last(m, pre, i);
        assert(obs.last() == obs[last]);
    }
}

/// A re-scan refreshes what it observed: for the last observation of a
/// file id, the resulting entry has that observation's id, path, names,
/// extension, size and modification time, and, whenever the observation's
/// platform is specific (not `Other`), exactly that platform, whatever the
/// cached entry said before.
pub proof fn lemma_rescan_refreshes<M, E>(
    existing: Seq<LibraryEntry<M, E>>,
    observed: Seq<FileRecord<M>>,
    i: int,
)
    requires
        0 <= i < observed.len(),
        forall|j: int| i < j < observed.len() ==> (#[trigger] observed[j]).id@ != observed[i].id@,
    ensures
        merged_library(existing, observed).contains_key(observed[i].id@),
        merged_library(existing, observed)[observed[i].id@].file.id == observed[i].id,
        merged_library(existing, observed)[observed[i].id@].file.path == observed[i].path,
        merged_library(existing, observed)[observed[i].id@].file.file_name == observed[i].file_name,
        merged_library(existing, observed)[observed[i].id@].file.stem == observed[i].stem,
        merged_library(existing, observed)[observed[i].id@].file.extension == observed[i].extension,
        merged_library(existing, observed)[observed[i].id@].file.size_bytes == observed[i].size_bytes,
        merged_library(existing, observed)[observed[i].id@].file.modified == observed[i].modified,
        observed[i].platform != Platform::Other ==> merged_library(existing, observed)[observed[i].id@].file.platform
            == observed[i].platform,
{
    lemma_scan_keeps_exactly_observed(existing, observed, i);
    lemma_after_scan_last(by_id(existing), observed, i);
}

/// Which files a scan keeps, by the lower-cased extension `el` of the
/// file: an extension outside the table is never a game; a data file is
/// dropped when a sibling descriptor stands for it (`.bin` / `.ecm` next to
/// a `.cue`, `.gdi`, `.toc` or `.ccd`; `.img` next to a `.ccd` or `.cue`;
/// `.iso` next to a `.cue` or `.m3u`; `.raw` next to a `.gdi` or `.cue`;
/// `.sub` next to a `.ccd`; `.cue` / `.gdi` under an `.m3u`); a file that
/// is not a descriptor is dropped below 16 KiB; otherwise, with no sibling
/// descriptor, the file is a game of its table platform, refined from the
/// path, name and size when that platform is `Other` and kept as is when
/// it is specific.
pub proof fn lemma_candidate_laws(
    path: Seq<char>,
    file_name: Seq<char>,
    ext: Seq<char>,
    size: u64,
    s: DescriptorPresence,
)
    ensures
        lookup(ext_table(), lowercase(ext)) is None ==> candidate_platform(path, file_name, ext, size, s)
            is None,
        lowercase(ext) == "bin"@ && (s.cue || s.gdi || s.toc || s.ccd) ==> candidate_platform(
            path,
            file_name,
            ext,
            size,
            s,
        ) is None,
        lowercase(ext) == "ecm"@ && (s.cue || s.gdi || s.toc || s.ccd) ==> candidate_platform(
            path,
            file_name,
            ext,
            size,
            s,
        ) is None,
        lowercase(ext) == "img"@ && (s.ccd || s.cue) ==> candidate_platform(path, file_name, ext, size, s)
            is None,
        lowercase(ext) == "iso"@ && (s.cue || s.m3u) ==> candidate_platform(path, file_name, ext, size, s)
            is None,
        lowercase(ext) == "raw"@ && (s.gdi || s.cue) ==> candidate_platform(path, file_name, ext, size, s)
            is None,
        lowercase(ext) == "sub"@ && s.ccd ==> candidate_platform(path, file_name, ext, size, s) is None,
        (lowercase(ext) == "cue"@ || lowercase(ext) == "gdi"@) && s.m3u ==> candidate_platform(
            path,
            file_name,
            ext,
            size,
            s,
        ) is None,
        !(lowercase(ext) == "cue"@ || lowercase(ext) == "m3u"@ || lowercase(ext) == "gdi"@ || lowercase(ext)
            == "toc"@ || lowercase(ext) == "ccd"@) && size < 16384 ==> candidate_platform(
            path,
            file_name,
            ext,
            size,
            s,
        ) is None,
        ({
            let none_near = !s.m3u && !s.cue && !s.gdi && !s.toc && !s.ccd;
            let descriptor = lowercase(ext) == "cue"@ || lowercase(ext) == "m3u"@ || lowercase(ext)
                == "gdi"@ || lowercase(ext) == "toc"@ || lowercase(ext) == "ccd"@;
            none_near && (descriptor || size >= 16384) && lookup(ext_table(), lowercase(ext)) is Some
                ==> candidate_platform(path, file_name, ext, size, s) == Some(
                if lookup(ext_table(), lowercase(ext))->0 == Platform::Other {
                    refined_platform(
                        Platform::Other,
                        lowercase(path),
                        lowercase(file_name),
                        path_lower_extension(path),
                        size,
                    )
                } else {
                    lookup(ext_table(), lowercase(ext))->0
                },
            )
        }),
{
    reveal_strlit("bin");
    reveal_strlit("img");
    reveal_strlit("iso");
    reveal_strlit("raw");
    reveal_strlit("sub");
    reveal_strlit("ecm");
    reveal_strlit("cue");
    reveal_strlit("gdi");
    reveal_strlit("m3u");
    reveal_strlit("toc");
    reveal_strlit("ccd");
    assert("iso"@[1] != "img"@[1]);
    assert("iso"@ != "img"@);
    assert("ecm"@[0] != "bin"@[0] && "ecm"@[0] != "img"@[0] && "ecm"@[0] != "iso"@[0] && "ecm"@[0]
        != "raw"@[0] && "ecm"@[0] != "sub"@[0]);
    assert("ecm"@ != "bin"@ && "ecm"@ != "img"@ && "ecm"@ != "iso"@ && "ecm"@ != "raw"@ && "ecm"@ != "sub"@);
    assert("iso"@[0] != "bin"@[0]);
    assert("iso"@ != "bin"@);
}

proof fn lemma_after_scan_domain<M, E>(m: Map<Seq<char>, LibraryEntry<M, E>>, obs: Seq<FileRecord<M>>, k: Seq<char>)
    ensures
        after_scan(m, obs).contains_key(k) <==> (m.contains_key(k) || exists|i: int|
            0 <= i < obs.len() && (#[trigger] obs[i]).id@ == k),
        !m.contains_key(k) && after_scan(m, obs).contains_key(k) ==> after_scan(m, obs)[k].igdb is None
            && after_scan(m, obs)[k].cover_local_path is None && after_scan(m, obs)[k].last_enriched is None,
    decreases obs.len(),
{
    if obs.len() > 0 {
        let pre = obs.drop_last();
        lemma_after_scan_domain(m, pre, k);
        if exists|i: int| 0 <= i < pre.len() && (#[trigger] pre[i]).id@ == k {
            let i = choose|i: int| 0 <= i < pre.len() && (#[trigger] pre[i]).id@ == k;
            assert(obs[i] == pre[i]);
        }
        if exists|i: int| 0 <= i < obs.len() && (#[trigger] obs[i]).id@ == k {
            let i = choose|i: int| 0 <= i < obs.len() && (#[trigger] obs[i]).id@ == k;
            if i < obs.len() - 1 {
                assert(pre[i] == obs[i]);
            }
        }
    }
}

/// A file a scan sees for the first time gets an entry with nothing
/// attached yet: no metadata, no cover, no lookup time.
pub proof fn lemma_new_entries_are_bare<M, E>(
    existing: Seq<LibraryEntry<M, E>>,
    observed: Seq<FileRecord<M>>,
    k: Seq<char>,
)
    requires
        !by_id(existing).contains_key(k),
        merged_library(existing, observed).contains_key(k),
    ensures
        merged_library(existing, observed)[k].igdb is None,
        merged_library(existing, observed)[k].cover_local_path is None,
        merged_library(existing, observed)[k].last_enriched is None,
{
    lemma_after_scan_domain(by_id(existing), observed, k);
}

/// With distinct observed ids, the observations counted as kept are
/// exactly those whose id was already cached: all of them when every id
/// was cached, none when no id was.
pub proof fn lemma_kept_count_laws<M, E>(m: Map<Seq<char>, LibraryEntry<M, E>>, obs: Seq<FileRecord<M>>)
    requires
        forall|i: int, j: int| 0 <= i < j < obs.len() ==> (#[trigger] obs[i]).id@ != (#[trigger] obs[j]).id@,
    ensures
        (forall|i: int| 0 <= i < obs.len() ==> m.contains_key((#[trigger] obs[i]).id@)) ==> kept_count(m, obs)
            == obs.len(),
        (forall|i: int| 0 <= i < obs.len() ==> !m.contains_key((#[trigger] obs[i]).id@)) ==> kept_count(m, obs)
            == 0,
    decreases obs.len(),
{
    if obs.len() > 0 {
        let pre = obs.drop_last();
        assert forall|i: int, j: int| 0 <= i < j < pre.len() implies (#[trigger] pre[i]).id@ != (
        #[trigger] pre[j]).id@ by {
            assert(pre[i] == obs[i] && pre[j] == obs[j]);
        }
        lemma_kept_count_laws(m, pre);
        let k = obs.last().id@;
        lemma_after_scan_domain(m, pre, k);
        assert(!(exists|i: int| 0 <= i < pre.len() && (#[trigger] pre[i]).id@ == k)) by {
            if exists|i: int| 0 <= i < pre.len() && (#[trigger] pre[i]).id@ == k {
                let i = choose|i: int| 0 <= i < pre.len() && (#[trigger] pre[i]).id@ == k;
                assert(obs[i] == pre[i]);
                assert(obs[obs.len() - 1] == obs.last());
            }
        }
        if forall|i: int| 0 <= i < obs.len() ==> m.contains_key((#[trigger] obs[i]).id@) {
            assert forall|i: int| 0 <= i < pre.len() implies m.contains_key((#[trigger] pre[i]).id@) by {
                assert(pre[i] == obs[i]);
            }
            assert(m.contains_key(obs[obs.len() - 1].id@));
        }
        if forall|i: int| 0 <= i < obs.len() ==> !m.contains_key((#[trigger] obs[i]).id@) {
            assert forall|i: int| 0 <= i < pre.len() implies !m.contains_key((#[trigger] pre[i]).id@) by {
                assert(pre[i] == obs[i]);
            }
            assert(!m.contains_key(obs[obs.len() - 1].id@));
        }
    }
}

} // verus!

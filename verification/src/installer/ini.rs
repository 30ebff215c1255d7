//! Minimal INI editing used to patch emulator config files in place:
//! setting a `key = value` line inside a section, and replacing a whole
//! `[Section]` block. Text outside the touched region is preserved
//! character for character.

use vstd::prelude::*;

use crate::text::{
    contains, chars_of, eq_ignore_ascii_case, eq_ignore_ascii_case_exec, extend_chars, extend_str, find,
    find_exec, find_from, matches_at, lemma_find_from, slice_chars, starts_with, starts_with_str, string_of, trim,
    trim_end, trim_end_exec, trim_exec, trim_start, trim_start_exec,
};

verus! {

// ---------------------------------------------------------------------------
// Lines
// ---------------------------------------------------------------------------

/// A line without the `\r` of a `\r\n` terminator.
pub open spec fn strip_cr(line: Seq<char>) -> Seq<char> {
    if line.len() > 0 && line.last() == '\r' {
        line.drop_last()
    } else {
        line
    }
}

/// The lines of `s` (as `str::lines` yields them) when the current,
/// unterminated line so far is `cur`: lines end at `\n`, a `\r` before
/// the `\n` is dropped, and an empty final segment is no line.
pub open spec fn lines_from(s: Seq<char>, cur: Seq<char>) -> Seq<Seq<char>>
    decreases s.len(),
{
    if s.len() == 0 {
        if cur.len() == 0 {
            Seq::empty()
        } else {
            seq![cur]
        }
    } else if s[0] == '\n' {
        seq![strip_cr(cur)] + lines_from(s.drop_first(), Seq::empty())
    } else {
        lines_from(s.drop_first(), cur.push(s[0]))
    }
}

/// The lines of `s` (`str::lines`).
pub open spec fn lines(s: Seq<char>) -> Seq<Seq<char>> {
    lines_from(s, Seq::empty())
}

// ---------------------------------------------------------------------------
// key = value lines
// ---------------------------------------------------------------------------

/// The line written for a key.
pub open spec fn kv_line(key: Seq<char>, value: Seq<char>) -> Seq<char> {
    key + " = "@ + value
}

/// The line assigns `key`: its text before the first `=` is, trimmed,
/// `key` up to ASCII case.
pub open spec fn line_sets_key(line: Seq<char>, key: Seq<char>) -> bool {
    let t = trim_start(line);
    match find(t, "="@) {
        Some(p) => eq_ignore_ascii_case(trim(t.take(p)), key),
        None => false,
    }
}

/// The lines written back, each followed by `\n`, with every line that
/// assigns `key` replaced by the new assignment.
pub open spec fn render_lines(ls: Seq<Seq<char>>, key: Seq<char>, value: Seq<char>) -> Seq<char>
    decreases ls.len(),
{
    if ls.len() == 0 {
        Seq::empty()
    } else {
        render_lines(ls.drop_last(), key, value) + (if line_sets_key(ls.last(), key) {
            kv_line(key, value)
        } else {
            ls.last()
        }) + "\n"@
    }
}

/// Some line assigns `key`.
pub open spec fn any_sets_key(ls: Seq<Seq<char>>, key: Seq<char>) -> bool {
    exists|i: int| 0 <= i < ls.len() && line_sets_key(#[trigger] ls[i], key)
}

/// `s` without its leading `\n` characters (`trim_start_matches('\n')`).
pub open spec fn strip_leading_newlines(s: Seq<char>) -> Seq<char>
    decreases s.len(),
{
    if s.len() > 0 && s[0] == '\n' {
        strip_leading_newlines(s.drop_first())
    } else {
        s
    }
}

/// A section body with `key = value` set: every assignment of `key` is
/// rewritten; when there is none, the assignment is inserted first.
pub open spec fn upserted(body: Seq<char>, key: Seq<char>, value: Seq<char>) -> Seq<char> {
    let ls = lines(body);
    let out = render_lines(ls, key, value);
    if !any_sets_key(ls, key) {
        "\n"@ + kv_line(key, value) + "\n"@ + strip_leading_newlines(out)
    } else if starts_with(body, "\n"@) && !starts_with(out, "\n"@) {
        "\n"@ + out
    } else {
        out
    }
}

fn line_sets_key_exec(line: &[char], key: &[char]) -> (r: bool)
    ensures
        r == line_sets_key(line@, key@),
{
    let t = trim_start_exec(line);
    let eq = chars_of("=");
    match find_exec(t.as_slice(), eq.as_slice()) {
        Some(p) => {
            proof {
                lemma_find_from(t@, eq@, 0);
            }
            let lhs = slice_chars(t.as_slice(), 0, p);
            assert(lhs@ =~= t@.take(p as int));
            let lt = trim_exec(lhs.as_slice());
            eq_ignore_ascii_case_exec(lt.as_slice(), key)
        },
        None => false,
    }
}

proof fn lemma_any_sets_key_push(ls: Seq<Seq<char>>, l: Seq<char>, key: Seq<char>)
    ensures
        any_sets_key(ls.push(l), key) == (any_sets_key(ls, key) || line_sets_key(l, key)),
{
    let t = ls.push(l);
    if any_sets_key(ls, key) {
        let i = choose|i: int| 0 <= i < ls.len() && line_sets_key(#[trigger] ls[i], key);
        assert(t[i] == ls[i]);
    }
    if line_sets_key(l, key) {
        assert(t[ls.len() as int] == l);
    }
    if any_sets_key(t, key) {
        let i = choose|i: int| 0 <= i < t.len() && line_sets_key(#[trigger] t[i], key);
        if i < ls.len() {
            assert(t[i] == ls[i]);
        }
    }
}

fn strip_leading_newlines_exec(s: &[char]) -> (r: Vec<char>)
    ensures
        r@ == strip_leading_newlines(s@),
{
    let mut i: usize = 0;
    assert(s@.skip(0) =~= s@);
    while i < s.len() && s[i] == '\n'
        invariant
            i <= s.len(),
            strip_leading_newlines(s@) == strip_leading_newlines(s@.skip(i as int)),
        decreases s.len() - i,
    {
        assert(s@.skip(i as int).drop_first() =~= s@.skip(i + 1));
        i += 1;
    }
    let r = slice_chars(s, i, s.len());
    assert(r@ =~= s@.skip(i as int));
    r
}

/// Character-level `upsert_kv_line`.
pub fn upsert_kv_chars(body: &[char], key: &[char], value: &[char]) -> (r: Vec<char>)
    ensures
        r@ == upserted(body@, key@, value@),
{
    let mut out: Vec<char> = Vec::new();
    let mut replaced = false;
    let mut cur: Vec<char> = Vec::new();
    let ghost mut done: Seq<Seq<char>> = Seq::empty();
    let mut i: usize = 0;
    assert(body@.skip(0) =~= body@);
    while i < body.len()
        invariant
            i <= body.len(),
            done + lines_from(body@.skip(i as int), cur@) == lines(body@),
            out@ == render_lines(done, key@, value@),
            replaced == any_sets_key(done, key@),
        decreases body.len() - i,
    {
        let c = body[i];
        let ghost rest = body@.skip(i as int);
        assert(rest[0] == c);
        assert(rest.drop_first() =~= body@.skip(i + 1));
        if c == '\n' {
            let mut line = cur;
            if line.len() > 0 && line[line.len() - 1] == '\r' {
                line.pop();
            }
            assert(line@ =~= strip_cr(cur@));
            let hit = line_sets_key_exec(line.as_slice(), key);
            if hit {
                extend_chars(&mut out, key);
                extend_str(&mut out, " = ");
                extend_chars(&mut out, value);
                replaced = true;
            } else {
                extend_chars(&mut out, line.as_slice());
            }
            extend_str(&mut out, "\n");
            proof {
                let nd = done.push(line@);
                assert(nd.drop_last() =~= done);
                lemma_any_sets_key_push(done, line@, key@);
                assert(nd + lines_from(body@.skip(i + 1), Seq::empty()) =~= done + (seq![line@]
                    + lines_from(body@.skip(i + 1), Seq::empty())));
                done = nd;
            }
            cur = Vec::new();
        } else {
            cur.push(c);
        }
        i += 1;
    }
    if cur.len() > 0 {
        let hit = line_sets_key_exec(cur.as_slice(), key);
        if hit {
            extend_chars(&mut out, key);
            extend_str(&mut out, " = ");
            extend_chars(&mut out, value);
            replaced = true;
        } else {
            extend_chars(&mut out, cur.as_slice());
        }
        extend_str(&mut out, "\n");
        proof {
            let nd = done.push(cur@);
            assert(nd.drop_last() =~= done);
            lemma_any_sets_key_push(done, cur@, key@);
            assert(lines_from(body@.skip(i as int), cur@) =~= seq![cur@]);
            assert(nd =~= lines(body@));
            done = nd;
        }
    } else {
        assert(lines_from(body@.skip(i as int), cur@) =~= Seq::<Seq<char>>::empty());
        assert(done =~= lines(body@));
    }
    assert(out@ == render_lines(lines(body@), key@, value@));
    assert(replaced == any_sets_key(lines(body@), key@));
    if !replaced {
        let mut r: Vec<char> = Vec::new();
        extend_str(&mut r, "\n");
        extend_chars(&mut r, key);
        extend_str(&mut r, " = ");
        extend_chars(&mut r, value);
        extend_str(&mut r, "\n");
        let tail = strip_leading_newlines_exec(out.as_slice());
        extend_chars(&mut r, tail.as_slice());
        assert(r@ =~= upserted(body@, key@, value@));
        r
    } else if starts_with_str(body, "\n") && !starts_with_str(out.as_slice(), "\n") {
        let mut r: Vec<char> = Vec::new();
        extend_str(&mut r, "\n");
        extend_chars(&mut r, out.as_slice());
        assert(r@ =~= upserted(body@, key@, value@));
        r
    } else {
        assert(out@ =~= upserted(body@, key@, value@));
        out
    }
}

/// Set `key = value` in a section body: every line assigning `key`
/// (compared ASCII-case-insensitively after trimming) is rewritten, and
/// when none does the assignment is inserted right after the header.
pub fn upsert_kv_line(body: &str, key: &str, value: &str) -> (r: String)
    ensures
        r@ == upserted(body@, key@, value@),
{
    let b = chars_of(body);
    let k = chars_of(key);
    let v = chars_of(value);
    let r = upsert_kv_chars(b.as_slice(), k.as_slice(), v.as_slice());
    string_of(r.as_slice())
}

// ---------------------------------------------------------------------------
// Sections
// ---------------------------------------------------------------------------

/// End of the section whose body starts at `from`: the next `\n[`, or the
/// end of the text.
pub open spec fn section_end(text: Seq<char>, from: int) -> int {
    match find(text.skip(from), "\n["@) {
        Some(off) => from + off,
        None => text.len() as int,
    }
}

/// `text` with `key = value` set inside `[InputSources]`; when the
/// section is missing it is appended (after trimming trailing whitespace).
pub open spec fn with_input_source(text: Seq<char>, key: Seq<char>, value: Seq<char>) -> Seq<
    char,
> {
    let header = "[InputSources]"@;
    match find(text, header) {
        None => trim_end(text) + "\n"@ + header + "\n"@ + kv_line(key, value) + "\n"@,
        Some(start) => {
            let body_start = start + header.len();
            let body_end = section_end(text, body_start);
            text.take(body_start) + upserted(text.subrange(body_start, body_end), key, value)
                + text.skip(body_end)
        },
    }
}

/// `text` with the section starting at `header` (through to the next
/// `\n[` or the end) replaced; when it is missing, `replacement` is
/// appended after a blank line.
pub open spec fn with_section(text: Seq<char>, header: Seq<char>, replacement: Seq<char>) -> Seq<
    char,
> {
    match find(text, header) {
        None => trim_end(text) + "\n\n"@ + replacement + "\n"@,
        Some(start) => {
            let end = section_end(text, start + header.len());
            text.take(start) + replacement + text.skip(end)
        },
    }
}

/// Where the section whose body starts at `from` ends.
fn section_end_exec(text: &[char], from: usize) -> (r: usize)
    requires
        from <= text.len(),
    ensures
        r == section_end(text@, from as int),
        from <= r <= text.len(),
{
    let rest = slice_chars(text, from, text.len());
    assert(rest@ =~= text@.skip(from as int));
    let pat = chars_of("\n[");
    match find_exec(rest.as_slice(), pat.as_slice()) {
        Some(off) => {
            proof {
                lemma_find_from(rest@, pat@, 0);
            }
            from + off
        },
        None => text.len(),
    }
}

/// Make sure `key = value` is set inside `[InputSources]`. Inserts the
/// line if missing; replaces it if present with a different value.
pub fn ensure_input_source(text: &str, key: &str, value: &str) -> (r: String)
    ensures
        r@ == with_input_source(text@, key@, value@),
{
    let t = chars_of(text);
    let header = chars_of("[InputSources]");
    let k = chars_of(key);
    let v = chars_of(value);
    let mut out: Vec<char> = Vec::new();
    match find_exec(t.as_slice(), header.as_slice()) {
        None => {
            let trimmed = trim_end_exec(t.as_slice());
            extend_chars(&mut out, trimmed.as_slice());
            extend_str(&mut out, "\n");
            extend_chars(&mut out, header.as_slice());
            extend_str(&mut out, "\n");
            extend_chars(&mut out, k.as_slice());
            extend_str(&mut out, " = ");
            extend_chars(&mut out, v.as_slice());
            extend_str(&mut out, "\n");
        },
        Some(start) => {
            proof {
                lemma_find_from(t@, header@, 0);
                assert(find(t@, header@) == find_from(t@, header@, 0));
                assert(matches_at(t@, header@, start as int));
            }
            let tl = t.len();
            let hl = header.len();
            assert(start + hl <= tl);
            let body_start = start + hl;
            let body_end = section_end_exec(t.as_slice(), body_start);
            let before = slice_chars(t.as_slice(), 0, body_start);
            let body = slice_chars(t.as_slice(), body_start, body_end);
            let after = slice_chars(t.as_slice(), body_end, t.len());
            let new_body = upsert_kv_chars(body.as_slice(), k.as_slice(), v.as_slice());
            extend_chars(&mut out, before.as_slice());
            extend_chars(&mut out, new_body.as_slice());
            extend_chars(&mut out, after.as_slice());
            assert(before@ =~= t@.take(body_start as int));
            assert(after@ =~= t@.skip(body_end as int));
        },
    }
    assert(out@ =~= with_input_source(text@, key@, value@));
    string_of(out.as_slice())
}

/// Replace a whole `[Section]` block (header line through to the line
/// before the next `\n[`, or the end). Appends it if the section is missing.
pub fn replace_section(text: &str, header: &str, replacement: &str) -> (r: String)
    ensures
        r@ == with_section(text@, header@, replacement@),
{
    let t = chars_of(text);
    let h = chars_of(header);
    let rep = chars_of(replacement);
    let mut out: Vec<char> = Vec::new();
    match find_exec(t.as_slice(), h.as_slice()) {
        None => {
            let trimmed = trim_end_exec(t.as_slice());
            extend_chars(&mut out, trimmed.as_slice());
            extend_str(&mut out, "\n\n");
            extend_chars(&mut out, rep.as_slice());
            extend_str(&mut out, "\n");
        },
        Some(start) => {
            proof {
                lemma_find_from(t@, h@, 0);
                assert(find(t@, h@) == find_from(t@, h@, 0));
                assert(matches_at(t@, h@, start as int));
            }
            let tl = t.len();
            let hl = h.len();
            assert(start + hl <= tl);
            let end = section_end_exec(t.as_slice(), start + hl);
            let before = slice_chars(t.as_slice(), 0, start);
            let after = slice_chars(t.as_slice(), end, t.len());
            extend_chars(&mut out, before.as_slice());
            extend_chars(&mut out, rep.as_slice());
            extend_chars(&mut out, after.as_slice());
            assert(before@ =~= t@.take(start as int));
            assert(after@ =~= t@.skip(end as int));
        },
    }
    assert(out@ =~= with_section(text@, header@, replacement@));
    string_of(out.as_slice())
}

// ---------------------------------------------------------------------------
// Properties
// ---------------------------------------------------------------------------

proof fn lemma_contains_at(h: Seq<char>, n: Seq<char>, p: int)
    requires
        matches_at(h, n, p),
    ensures
        contains(h, n),
{
    lemma_find_from(h, n, 0);
}

proof fn lemma_match_in_middle(a: Seq<char>, b: Seq<char>, c: Seq<char>, n: Seq<char>, p: int)
    requires
        matches_at(b, n, p),
    ensures
        matches_at(a + b + c, n, a.len() + p),
{
    assert((a + b + c).subrange(a.len() + p, a.len() + p + n.len()) =~= b.subrange(p, p + n.len()));
}

proof fn lemma_rendered_assignment(ls: Seq<Seq<char>>, key: Seq<char>, value: Seq<char>) -> (p: int)
    requires
        any_sets_key(ls, key),
    ensures
        matches_at(render_lines(ls, key, value), kv_line(key, value), p),
    decreases ls.len(),
{
    let prefix = render_lines(ls.drop_last(), key, value);
    if line_sets_key(ls.last(), key) {
        assert(kv_line(key, value).subrange(0, kv_line(key, value).len() as int) =~= kv_line(key, value));
        lemma_match_in_middle(prefix, kv_line(key, value), "\n"@, kv_line(key, value), 0);
        prefix.len() as int
    } else {
        let i = choose|i: int| 0 <= i < ls.len() && line_sets_key(#[trigger] ls[i], key);
        assert(ls.drop_last()[i] == ls[i]);
        let q = lemma_rendered_assignment(ls.drop_last(), key, value);
        lemma_match_in_middle(Seq::empty(), prefix, ls.last() + "\n"@, kv_line(key, value), q);
        assert(Seq::<char>::empty() + prefix + (ls.last() + "\n"@) =~= render_lines(ls, key, value));
        q
    }
}

/// After `upserted`, the section body holds the assignment.
pub proof fn lemma_upserted_holds_assignment(body: Seq<char>, key: Seq<char>, value: Seq<char>)
    ensures
        contains(upserted(body, key, value), kv_line(key, value)),
{
    let ls = lines(body);
    let out = render_lines(ls, key, value);
    let kv = kv_line(key, value);
    if !any_sets_key(ls, key) {
        assert(kv.subrange(0, kv.len() as int) =~= kv);
        lemma_match_in_middle("\n"@, kv, "\n"@ + strip_leading_newlines(out), kv, 0);
        assert("\n"@ + kv + ("\n"@ + strip_leading_newlines(out)) =~= upserted(body, key, value));
        lemma_contains_at(upserted(body, key, value), kv, "\n"@.len() as int);
    } else {
        let p = lemma_rendered_assignment(ls, key, value);
        if starts_with(body, "\n"@) && !starts_with(out, "\n"@) {
            lemma_match_in_middle("\n"@, out, Seq::empty(), kv, p);
            assert("\n"@ + out + Seq::<char>::empty() =~= upserted(body, key, value));
            lemma_contains_at(upserted(body, key, value), kv, "\n"@.len() + p);
        } else {
            lemma_contains_at(out, kv, p);
        }
    }
}

/// After `ensure_input_source`, the text holds `key = value`.
pub proof fn lemma_input_source_is_set(text: Seq<char>, key: Seq<char>, value: Seq<char>)
    ensures
        contains(with_input_source(text, key, value), kv_line(key, value)),
{
    let header = "[InputSources]"@;
    let kv = kv_line(key, value);
    assert(kv.subrange(0, kv.len() as int) =~= kv);
    match find(text, header) {
        None => {
            let a = trim_end(text) + "\n"@ + header + "\n"@;
            assert(kv.subrange(0, kv.len() as int) =~= kv);
            lemma_match_in_middle(a, kv, "\n"@, kv, 0);
            assert(a + kv + "\n"@ =~= with_input_source(text, key, value));
            lemma_contains_at(with_input_source(text, key, value), kv, a.len() as int);
        },
        Some(start) => {
            let body_start = start + header.len();
            let body_end = section_end(text, body_start);
            let up = upserted(text.subrange(body_start, body_end), key, value);
            lemma_upserted_holds_assignment(text.subrange(body_start, body_end), key, value);
            lemma_find_from(up, kv, 0);
            let p = find(up, kv)->0;
            lemma_match_in_middle(text.take(body_start), up, text.skip(body_end), kv, p);
            lemma_contains_at(with_input_source(text, key, value), kv, text.take(body_start).len() + p);
        },
    }
}

/// After `replace_section`, the text holds the replacement block.
pub proof fn lemma_section_is_replaced(text: Seq<char>, header: Seq<char>, replacement: Seq<char>)
    ensures
        contains(with_section(text, header, replacement), replacement),
{
    assert(replacement.subrange(0, replacement.len() as int) =~= replacement);
    match find(text, header) {
        None => {
            let a = trim_end(text) + "\n\n"@;
            lemma_match_in_middle(a, replacement, "\n"@, replacement, 0);
            lemma_contains_at(with_section(text, header, replacement), replacement, a.len() as int);
        },
        Some(start) => {
            let end = section_end(text, start + header.len());
            lemma_match_in_middle(text.take(start), replacement, text.skip(end), replacement, 0);
            lemma_contains_at(with_section(text, header, replacement), replacement, text.take(start).len() as int);
        },
    }
}

} // verus!

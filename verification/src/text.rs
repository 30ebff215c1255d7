//! Character-level string helpers shared by the parsers and config
//! generators: conversion between `&str`/`String` and `Vec<char>`,
//! substring search, trimming, ASCII case folding and integer formatting.
//!
//! Everything works on the `Seq<char>` view of a string, so a `String`
//! built here is described by exactly the characters it holds.

use vstd::prelude::*;

verus! {

// ---------------------------------------------------------------------------
// Conversions
// ---------------------------------------------------------------------------

/// The characters of a string slice, in order.
pub fn chars_of(s: &str) -> (v: Vec<char>)
    ensures
        v@ == s@,
{
    let mut v: Vec<char> = Vec::new();
    for c in it: s.chars()
        invariant
            v@ == it.seq().take(it.index() as int),
            it.seq() == s@,
    {
        v.push(c);
    }
    v
}

/// Appends one character to a `String` (`String::push`).
#[verifier::external_body]
pub(crate) fn push_char(s: &mut String, c: char)
    ensures
        final(s)@ == old(s)@.push(c),
{
    s.push(c);
}

/// The `String` holding exactly the given characters.
pub fn string_of(v: &[char]) -> (s: String)
    ensures
        s@ == v@,
{
    let mut s = String::new();
    let mut i: usize = 0;
    while i < v.len()
        invariant
            i <= v.len(),
            s@ == v@.take(i as int),
        decreases v.len() - i,
    {
        push_char(&mut s, v[i]);
        assert(v@.take(i as int).push(v@[i as int]) == v@.take(i + 1));
        i += 1;
    }
    assert(v@.take(v@.len() as int) == v@);
    s
}

/// The characters of an optional `String`.
pub open spec fn opt_chars(o: Option<String>) -> Option<Seq<char>> {
    match o {
        Some(s) => Some(s@),
        None => None,
    }
}

/// An owned copy of a string slice.
pub fn owned(s: &str) -> (r: String)
    ensures
        r@ == s@,
{
    s.to_owned()
}

/// The character views of a list of strings.
pub open spec fn strs(v: Seq<String>) -> Seq<Seq<char>> {
    v.map_values(|s: String| s@)
}

/// A copy of a list of strings, element by element.
pub fn copy_strings(v: &Vec<String>) -> (r: Vec<String>)
    ensures
        strs(r@) == strs(v@),
{
    let mut out: Vec<String> = Vec::new();
    let mut i: usize = 0;
    while i < v.len()
        invariant
            i <= v@.len(),
            strs(out@) == strs(v@).take(i as int),
        decreases v.len() - i,
    {
        let ghost prev = out@;
        out.push(copy_string(&v[i]));
        assert(strs(out@) =~= strs(prev).push(v@[i as int]@));
        assert(strs(v@).take(i + 1) =~= strs(v@).take(i as int).push(strs(v@)[i as int]));
        assert(strs(out@) =~= strs(v@).take(i + 1));
        i += 1;
    }
    assert(strs(v@).take(v@.len() as int) =~= strs(v@));
    out
}

/// A copy of a `String` with the same characters.
pub fn copy_string(s: &String) -> (r: String)
    ensures
        r@ == s@,
{
    s.clone()
}

/// Appends all characters of `t` to `v`.
pub fn extend_chars(v: &mut Vec<char>, t: &[char])
    ensures
        final(v)@ == old(v)@ + t@,
{
    let mut i: usize = 0;
    while i < t.len()
        invariant
            i <= t.len(),
            v@ == old(v)@ + t@.take(i as int),
        decreases t.len() - i,
    {
        v.push(t[i]);
        assert(t@.take(i as int).push(t@[i as int]) == t@.take(i + 1));
        i += 1;
    }
    assert(t@.take(t@.len() as int) == t@);
}

/// Appends all characters of the string slice `t` to `v`.
pub fn extend_str(v: &mut Vec<char>, t: &str)
    ensures
        final(v)@ == old(v)@ + t@,
{
    let tc = chars_of(t);
    extend_chars(v, tc.as_slice());
}

/// Whether two character vectors hold the same characters.
pub fn chars_eq(a: &[char], b: &[char]) -> (r: bool)
    ensures
        r == (a@ == b@),
{
    if a.len() != b.len() {
        return false;
    }
    let mut i: usize = 0;
    while i < a.len()
        invariant
            a.len() == b.len(),
            i <= a.len(),
            forall|j: int| 0 <= j < i ==> a@[j] == b@[j],
        decreases a.len() - i,
    {
        if a[i] != b[i] {
            return false;
        }
        i += 1;
    }
    assert(a@ =~= b@);
    true
}

/// Whether a string slice equals the given characters.
pub fn str_eq(a: &str, b: &str) -> (r: bool)
    ensures
        r == (a@ == b@),
{
    let ac = chars_of(a);
    let bc = chars_of(b);
    chars_eq(ac.as_slice(), bc.as_slice())
}

// ---------------------------------------------------------------------------
// Substring search
// ---------------------------------------------------------------------------

/// `n` occurs in `h` starting at index `i`.
pub open spec fn matches_at(h: Seq<char>, n: Seq<char>, i: int) -> bool {
    0 <= i && i + n.len() <= h.len() && h.subrange(i, i + n.len()) == n
}

/// First index at or after `i` where `n` occurs in `h`.
pub open spec fn find_from(h: Seq<char>, n: Seq<char>, i: int) -> Option<int>
    decreases h.len() + 1 - i,
{
    if i < 0 || i + n.len() > h.len() {
        None
    } else if matches_at(h, n, i) {
        Some(i)
    } else {
        find_from(h, n, i + 1)
    }
}

/// First index where `n` occurs in `h` (`str::find`).
pub open spec fn find(h: Seq<char>, n: Seq<char>) -> Option<int> {
    find_from(h, n, 0)
}

/// `n` occurs somewhere in `h` (`str::contains`).
pub open spec fn contains(h: Seq<char>, n: Seq<char>) -> bool {
    find(h, n) is Some
}

pub open spec fn starts_with(h: Seq<char>, p: Seq<char>) -> bool {
    p.len() <= h.len() && h.take(p.len() as int) == p
}

pub open spec fn ends_with(h: Seq<char>, p: Seq<char>) -> bool {
    p.len() <= h.len() && h.skip(h.len() - p.len()) == p
}

/// A found index lies in range and is a real match, and nothing earlier matches.
pub proof fn lemma_find_from(h: Seq<char>, n: Seq<char>, i: int)
    requires
        0 <= i,
    ensures
        find_from(h, n, i) matches Some(k) ==> i <= k && matches_at(h, n, k)
            && forall|j: int| i <= j < k ==> !matches_at(h, n, j),
        find_from(h, n, i) is None ==> forall|j: int| i <= j ==> !matches_at(h, n, j),
    decreases h.len() + 1 - i,
{
    if i + n.len() > h.len() {
    } else if matches_at(h, n, i) {
    } else {
        lemma_find_from(h, n, i + 1);
    }
}

/// Whether `n` occurs in `h` at index `i`.
pub fn matches_at_exec(h: &[char], n: &[char], i: usize) -> (r: bool)
    ensures
        r == matches_at(h@, n@, i as int),
{
    if i > h.len() || n.len() > h.len() - i {
        return false;
    }
    let mut k: usize = 0;
    while k < n.len()
        invariant
            i + n.len() <= h.len(),
            k <= n.len(),
            forall|j: int| 0 <= j < k ==> h@[i + j] == n@[j],
        decreases n.len() - k,
    {
        if h[i + k] != n[k] {
            assert(h@.subrange(i as int, i + n.len())[k as int] != n@[k as int]);
            return false;
        }
        k += 1;
    }
    assert(h@.subrange(i as int, i + n.len()) =~= n@);
    true
}

/// First index at or after `start` where `n` occurs in `h`.
pub fn find_from_exec(h: &[char], n: &[char], start: usize) -> (r: Option<usize>)
    ensures
        r matches Some(k) ==> find_from(h@, n@, start as int) == Some(k as int),
        r is None ==> find_from(h@, n@, start as int) is None,
{
    let mut i = start;
    if i > h.len() || n.len() > h.len() - i {
        return None;
    }
    while n.len() <= h.len() - i
        invariant
            start <= i <= h.len(),
            n.len() <= h.len(),
            find_from(h@, n@, start as int) == find_from(h@, n@, i as int),
        decreases h.len() - i,
    {
        if matches_at_exec(h, n, i) {
            return Some(i);
        }
        proof {
            if n@.len() == 0 {
                assert(h@.subrange(i as int, i as int) =~= n@);
            }
        }
        if i == h.len() {
            return None;
        }
        i += 1;
    }
    None
}

/// First index where `n` occurs in `h`.
pub fn find_exec(h: &[char], n: &[char]) -> (r: Option<usize>)
    ensures
        r matches Some(k) ==> find(h@, n@) == Some(k as int),
        r is None ==> find(h@, n@) is None,
{
    find_from_exec(h, n, 0)
}

/// Whether `n` occurs in `h`.
pub fn contains_exec(h: &[char], n: &[char]) -> (r: bool)
    ensures
        r == contains(h@, n@),
{
    find_exec(h, n).is_some()
}

/// Whether the string slice `n` occurs in `h`.
pub fn contains_str(h: &[char], n: &str) -> (r: bool)
    ensures
        r == contains(h@, n@),
{
    let nc = chars_of(n);
    contains_exec(h, nc.as_slice())
}

pub fn starts_with_exec(h: &[char], p: &[char]) -> (r: bool)
    ensures
        r == starts_with(h@, p@),
{
    if p.len() > h.len() {
        return false;
    }
    let r = matches_at_exec(h, p, 0);
    assert(h@.subrange(0, p@.len() as int) == h@.take(p@.len() as int));
    r
}

pub fn starts_with_str(h: &[char], p: &str) -> (r: bool)
    ensures
        r == starts_with(h@, p@),
{
    let pc = chars_of(p);
    starts_with_exec(h, pc.as_slice())
}

pub fn ends_with_exec(h: &[char], p: &[char]) -> (r: bool)
    ensures
        r == ends_with(h@, p@),
{
    if p.len() > h.len() {
        return false;
    }
    let r = matches_at_exec(h, p, h.len() - p.len());
    assert(h@.subrange(h@.len() - p@.len(), h@.len() as int) == h@.skip(h@.len() - p@.len()));
    r
}

pub fn ends_with_str(h: &[char], p: &str) -> (r: bool)
    ensures
        r == ends_with(h@, p@),
{
    let pc = chars_of(p);
    ends_with_exec(h, pc.as_slice())
}

/// The characters `h[from..to]`.
pub fn slice_chars(h: &[char], from: usize, to: usize) -> (r: Vec<char>)
    requires
        from <= to <= h.len(),
    ensures
        r@ == h@.subrange(from as int, to as int),
{
    let mut r: Vec<char> = Vec::new();
    let mut i = from;
    while i < to
        invariant
            from <= i <= to <= h.len(),
            r@ == h@.subrange(from as int, i as int),
        decreases to - i,
    {
        r.push(h[i]);
        assert(h@.subrange(from as int, i as int).push(h@[i as int]) == h@.subrange(
            from as int,
            i + 1,
        ));
        i += 1;
    }
    r
}

/// Every non-overlapping occurrence of `from` (scanning left to right)
/// replaced by `to` (`str::replace` with a non-empty pattern).
pub open spec fn replace_all(s: Seq<char>, from: Seq<char>, to: Seq<char>) -> Seq<char>
    decreases s.len(),
{
    if from.len() == 0 {
        s
    } else {
        match find(s, from) {
            None => s,
            Some(i) => if 0 <= i && i + from.len() <= s.len() {
                s.take(i) + to + replace_all(s.skip(i + from.len()), from, to)
            } else {
                s
            },
        }
    }
}

pub proof fn lemma_find_skip(s: Seq<char>, n: Seq<char>, p: int, i: int)
    requires
        0 <= p <= s.len(),
        0 <= i,
    ensures
        find_from(s, n, p + i) == (match find_from(s.skip(p), n, i) {
            Some(k) => Some(k + p),
            None => None,
        }),
    decreases s.len() + 1 - p - i,
{
    let t = s.skip(p);
    if p + i + n.len() > s.len() {
    } else {
        assert(t.subrange(i, i + n.len()) =~= s.subrange(p + i, p + i + n.len()));
        if matches_at(s, n, p + i) {
        } else {
            lemma_find_skip(s, n, p, i + 1);
        }
    }
}

/// `s` with every occurrence of `from` replaced by `to`.
pub fn replace_exec(s: &[char], from: &[char], to: &[char]) -> (r: Vec<char>)
    requires
        from.len() > 0,
    ensures
        r@ == replace_all(s@, from@, to@),
{
    let mut out: Vec<char> = Vec::new();
    let mut pos: usize = 0;
    assert(s@.skip(0) =~= s@);
    loop
        invariant
            from.len() > 0,
            pos <= s.len(),
            out@ + replace_all(s@.skip(pos as int), from@, to@) == replace_all(s@, from@, to@),
        decreases s.len() - pos,
    {
        let ghost rest = s@.skip(pos as int);
        match find_from_exec(s, from, pos) {
            None => {
                proof {
                    lemma_find_skip(s@, from@, pos as int, 0);
                }
                let tail = slice_chars(s, pos, s.len());
                assert(tail@ == rest);
                extend_chars(&mut out, tail.as_slice());
                return out;
            },
            Some(k) => {
                proof {
                    lemma_find_skip(s@, from@, pos as int, 0);
                    lemma_find_from(s@, from@, pos as int);
                }
                let ghost i = k - pos;
                let mid = slice_chars(s, pos, k);
                assert(mid@ == rest.take(i));
                assert(rest.skip(i + from@.len()) =~= s@.skip(k + from@.len()));
                extend_chars(&mut out, mid.as_slice());
                extend_chars(&mut out, to);
                pos = k + from.len();
            },
        }
    }
}

/// `s` with every occurrence of the slice `from` replaced by `to`.
pub fn replace_str(s: &[char], from: &str, to: &str) -> (r: Vec<char>)
    requires
        from@.len() > 0,
    ensures
        r@ == replace_all(s@, from@, to@),
{
    let fc = chars_of(from);
    let tc = chars_of(to);
    replace_exec(s, fc.as_slice(), tc.as_slice())
}

// ---------------------------------------------------------------------------
// Character classes, trimming and splitting
// ---------------------------------------------------------------------------

/// The Unicode `White_Space` property (PropList.txt): U+0009..U+000D,
/// U+0020, U+0085, U+00A0, U+1680, U+2000..U+200A, U+2028, U+2029,
/// U+202F, U+205F and U+3000. `char::is_whitespace` is documented as
/// exactly this property.
pub open spec fn is_ws(c: char) -> bool {
    let u = c as u32;
    (0x09 <= u <= 0x0d) || u == 0x20 || u == 0x85 || u == 0xa0 || u == 0x1680 || (0x2000 <= u
        <= 0x200a) || u == 0x2028 || u == 0x2029 || u == 0x202f || u == 0x205f || u == 0x3000
}

/// Result of `char::is_alphanumeric`: the Unicode `Alphabetic` or `Numeric` property.
pub uninterp spec fn is_alnum(c: char) -> bool;

/// Whether the character has the `White_Space` property (what
/// `char::is_whitespace` answers).
pub fn is_whitespace(c: char) -> (r: bool)
    ensures
        r == is_ws(c),
{
    let u = c as u32;
    (0x09 <= u && u <= 0x0d) || u == 0x20 || u == 0x85 || u == 0xa0 || u == 0x1680 || (0x2000 <= u && u
        <= 0x200a) || u == 0x2028 || u == 0x2029 || u == 0x202f || u == 0x205f || u == 0x3000
}

/// `char::is_alphanumeric`; the result is the named property `is_alnum`.
#[verifier::external_body]
pub(crate) fn is_alphanumeric(c: char) -> (r: bool)
    ensures
        r == is_alnum(c),
{
    c.is_alphanumeric()
}

/// `s` without its leading whitespace (`str::trim_start`).
pub open spec fn trim_start(s: Seq<char>) -> Seq<char>
    decreases s.len(),
{
    if s.len() > 0 && is_ws(s[0]) {
        trim_start(s.drop_first())
    } else {
        s
    }
}

/// `s` without its trailing whitespace (`str::trim_end`).
pub open spec fn trim_end(s: Seq<char>) -> Seq<char>
    decreases s.len(),
{
    if s.len() > 0 && is_ws(s.last()) {
        trim_end(s.drop_last())
    } else {
        s
    }
}

/// `s` without leading and trailing whitespace (`str::trim`).
pub open spec fn trim(s: Seq<char>) -> Seq<char> {
    trim_end(trim_start(s))
}

/// `trim_start` drops a prefix, and what is left does not start with
/// whitespace.
pub proof fn lemma_trim_start_suffix(s: Seq<char>)
    ensures
        exists|k: int| 0 <= k <= s.len() && trim_start(s) == s.skip(k),
        trim_start(s).len() > 0 ==> !is_ws(trim_start(s)[0]),
    decreases s.len(),
{
    if s.len() > 0 && is_ws(s[0]) {
        lemma_trim_start_suffix(s.drop_first());
        let k = choose|k: int| 0 <= k <= s.drop_first().len() && trim_start(s.drop_first()) == s.drop_first().skip(k);
        assert(s.drop_first().skip(k) =~= s.skip(k + 1));
    } else {
        assert(s.skip(0) =~= s);
    }
}

/// `trim_end` drops a suffix, and what is left does not end with
/// whitespace.
pub proof fn lemma_trim_end_prefix(s: Seq<char>)
    ensures
        exists|k: int| 0 <= k <= s.len() && trim_end(s) == s.take(k),
        trim_end(s).len() > 0 ==> !is_ws(trim_end(s).last()),
    decreases s.len(),
{
    if s.len() > 0 && is_ws(s.last()) {
        lemma_trim_end_prefix(s.drop_last());
        let k = choose|k: int| 0 <= k <= s.drop_last().len() && trim_end(s.drop_last()) == s.drop_last().take(k);
        assert(s.drop_last().take(k) =~= s.take(k));
    } else {
        assert(s.take(s.len() as int) =~= s);
    }
}

/// `trim` keeps a contiguous part of `s`, and trimming twice changes
/// nothing more.
pub proof fn lemma_trim_laws(s: Seq<char>)
    ensures
        exists|a: int, b: int| 0 <= a <= b <= s.len() && trim(s) == s.subrange(a, b),
        trim(trim(s)) == trim(s),
{
    lemma_trim_start_suffix(s);
    let t = trim_start(s);
    let a = choose|k: int| 0 <= k <= s.len() && trim_start(s) == s.skip(k);
    lemma_trim_end_prefix(t);
    let b = choose|k: int| 0 <= k <= t.len() && trim_end(t) == t.take(k);
    assert(t.take(b) =~= s.subrange(a, a + b));
    let u = trim(s);
    if u.len() > 0 {
        assert(u[0] == t[0]);
        assert(trim_start(u) == u);
        lemma_trim_end_prefix(t);
        assert(!is_ws(u.last()));
        assert(trim_end(u) == u);
    } else {
        assert(trim_start(u) == u);
        assert(trim_end(u) == u);
    }
}

pub proof fn lemma_trim_start_skip(s: Seq<char>, i: int)
    requires
        0 <= i <= s.len(),
        forall|j: int| 0 <= j < i ==> is_ws(s[j]),
    ensures
        trim_start(s) == trim_start(s.skip(i)),
    decreases i,
{
    if i > 0 {
        assert(s.drop_first().skip(i - 1) =~= s.skip(i));
        lemma_trim_start_skip(s.drop_first(), i - 1);
    } else {
        assert(s.skip(0) =~= s);
    }
}

pub proof fn lemma_trim_end_take(s: Seq<char>, i: int)
    requires
        0 <= i <= s.len(),
        forall|j: int| i <= j < s.len() ==> is_ws(s[j]),
    ensures
        trim_end(s) == trim_end(s.take(i)),
    decreases s.len() - i,
{
    if i < s.len() {
        assert(s.drop_last().take(i) =~= s.take(i));
        lemma_trim_end_take(s.drop_last(), i);
    } else {
        assert(s.take(i) =~= s);
    }
}

/// Number of leading whitespace characters.
pub fn leading_ws(s: &[char]) -> (k: usize)
    ensures
        k <= s.len(),
        trim_start(s@) == s@.skip(k as int),
{
    let mut i: usize = 0;
    while i < s.len() && is_whitespace(s[i])
        invariant
            i <= s.len(),
            forall|j: int| 0 <= j < i ==> is_ws(s@[j]),
        decreases s.len() - i,
    {
        i += 1;
    }
    proof {
        lemma_trim_start_skip(s@, i as int);
        let t = s@.skip(i as int);
        assert(t.len() == 0 || !is_ws(t[0]));
    }
    i
}

/// Index just past the last non-whitespace character.
pub fn trailing_ws_start(s: &[char]) -> (k: usize)
    ensures
        k <= s.len(),
        trim_end(s@) == s@.take(k as int),
{
    let mut i: usize = s.len();
    while i > 0 && is_whitespace(s[i - 1])
        invariant
            i <= s.len(),
            forall|j: int| i <= j < s.len() ==> is_ws(s@[j]),
        decreases i,
    {
        i -= 1;
    }
    proof {
        lemma_trim_end_take(s@, i as int);
        let t = s@.take(i as int);
        assert(t.len() == 0 || !is_ws(t.last()));
    }
    i
}

pub fn trim_start_exec(s: &[char]) -> (r: Vec<char>)
    ensures
        r@ == trim_start(s@),
{
    let k = leading_ws(s);
    let r = slice_chars(s, k, s.len());
    assert(r@ =~= s@.skip(k as int));
    r
}

pub fn trim_end_exec(s: &[char]) -> (r: Vec<char>)
    ensures
        r@ == trim_end(s@),
{
    let k = trailing_ws_start(s);
    let r = slice_chars(s, 0, k);
    assert(r@ =~= s@.take(k as int));
    r
}

pub fn trim_exec(s: &[char]) -> (r: Vec<char>)
    ensures
        r@ == trim(s@),
{
    let a = trim_start_exec(s);
    trim_end_exec(a.as_slice())
}

/// The longest prefix of `s` without whitespace.
pub open spec fn word_len(s: Seq<char>) -> nat
    decreases s.len(),
{
    if s.len() > 0 && !is_ws(s[0]) {
        1 + word_len(s.drop_first())
    } else {
        0
    }
}

pub proof fn lemma_word_len(s: Seq<char>)
    ensures
        word_len(s) <= s.len(),
        forall|j: int| 0 <= j < word_len(s) ==> !is_ws(s[j]),
        word_len(s) < s.len() ==> is_ws(s[word_len(s) as int]),
    decreases s.len(),
{
    if s.len() > 0 && !is_ws(s[0]) {
        lemma_word_len(s.drop_first());
        assert forall|j: int| 0 <= j < word_len(s) implies !is_ws(s[j]) by {
            if j > 0 {
                assert(s[j] == s.drop_first()[j - 1]);
            }
        }
    }
}

/// The whitespace-separated words of `s` (`str::split_whitespace`).
pub open spec fn words(s: Seq<char>) -> Seq<Seq<char>>
    decreases s.len(),
{
    let t = trim_start(s);
    if t.len() == 0 || t.len() > s.len() {
        Seq::empty()
    } else {
        let w = word_len(t);
        if w == 0 || w > t.len() {
            Seq::empty()
        } else {
            seq![t.take(w as int)] + words(t.skip(w as int))
        }
    }
}

pub proof fn lemma_trim_start_len(s: Seq<char>)
    ensures
        trim_start(s).len() <= s.len(),
        trim_start(s).len() > 0 ==> !is_ws(trim_start(s)[0]),
    decreases s.len(),
{
    if s.len() > 0 && is_ws(s[0]) {
        lemma_trim_start_len(s.drop_first());
    }
}

/// Length of the word starting at index `i`.
fn word_end(s: &[char], i: usize) -> (e: usize)
    requires
        i <= s.len(),
    ensures
        i <= e <= s.len(),
        e - i == word_len(s@.skip(i as int)),
{
    let mut e = i;
    while e < s.len() && !is_whitespace(s[e])
        invariant
            i <= e <= s.len(),
            forall|j: int| i <= j < e ==> !is_ws(s@[j]),
        decreases s.len() - e,
    {
        e += 1;
    }
    proof {
        lemma_word_len_exact(s@.skip(i as int), (e - i) as int);
    }
    e
}

proof fn lemma_word_len_exact(s: Seq<char>, k: int)
    requires
        0 <= k <= s.len(),
        forall|j: int| 0 <= j < k ==> !is_ws(s[j]),
        k == s.len() || is_ws(s[k]),
    ensures
        word_len(s) == k,
    decreases k,
{
    if k > 0 {
        lemma_word_len_exact(s.drop_first(), k - 1);
    }
}

/// The whitespace-separated words of `s`.
pub fn split_words(s: &[char]) -> (ws: Vec<Vec<char>>)
    ensures
        ws@.len() == words(s@).len(),
        forall|i: int| 0 <= i < ws@.len() ==> #[trigger] ws@[i]@ == words(s@)[i],
{
    let mut out: Vec<Vec<char>> = Vec::new();
    let mut pos: usize = 0;
    assert(s@.skip(0) =~= s@);
    loop
        invariant
            pos <= s.len(),
            out@.len() + words(s@.skip(pos as int)).len() == words(s@).len(),
            forall|i: int| 0 <= i < out@.len() ==> #[trigger] out@[i]@ == words(s@)[i],
            forall|i: int|
                0 <= i < words(s@.skip(pos as int)).len() ==> words(s@.skip(pos as int))[i]
                    == words(s@)[out@.len() + i],
        decreases s.len() - pos,
    {
        let ghost rest = s@.skip(pos as int);
        let tail = slice_chars(s, pos, s.len());
        let k = leading_ws(tail.as_slice());
        proof {
            assert(tail@ =~= rest);
            lemma_trim_start_len(rest);
        }
        let start = pos + k;
        assert(trim_start(rest) =~= s@.skip(start as int));
        if start == s.len() {
            assert(words(rest).len() == 0);
            return out;
        }
        let e = word_end(s, start);
        let ghost t = s@.skip(start as int);
        proof {
            lemma_word_len(t);
            assert(t.len() > 0 && !is_ws(t[0]));
        }
        assert(word_len(t) > 0);
        let w = slice_chars(s, start, e);
        assert(w@ =~= t.take(word_len(t) as int));
        assert(t.skip(word_len(t) as int) =~= s@.skip(e as int));
        assert(words(rest) == seq![w@] + words(s@.skip(e as int)));
        let ghost old_out = out@;
        let ghost nxt = words(s@.skip(e as int));
        assert(words(rest)[0] == w@);
        assert(words(rest)[0] == words(s@)[old_out.len() as int]);
        out.push(w);
        pos = e;
        assert forall|i: int| 0 <= i < nxt.len() implies nxt[i] == words(s@)[out@.len() + i] by {
            assert(nxt[i] == words(rest)[i + 1]);
            assert(words(rest)[i + 1] == words(s@)[old_out.len() + (i + 1)]);
        }
        assert forall|i: int| 0 <= i < out@.len() implies #[trigger] out@[i]@ == words(s@)[i] by {
            if i < old_out.len() {
                assert(out@[i] == old_out[i]);
            }
        }
    }
}

// ---------------------------------------------------------------------------
// Case folding
// ---------------------------------------------------------------------------

/// ASCII lower-casing of one character (`char::to_ascii_lowercase`).
pub open spec fn ascii_lower(c: char) -> char {
    if 'A' <= c && c <= 'Z' {
        ((c as u32) + 32) as char
    } else {
        c
    }
}

/// ASCII lower-casing of every character (`str::to_ascii_lowercase`).
pub open spec fn ascii_lower_seq(s: Seq<char>) -> Seq<char> {
    s.map_values(|c: char| ascii_lower(c))
}

/// Equal after ASCII case folding (`str::eq_ignore_ascii_case`).
pub open spec fn eq_ignore_ascii_case(a: Seq<char>, b: Seq<char>) -> bool {
    ascii_lower_seq(a) == ascii_lower_seq(b)
}

pub fn ascii_lower_char(c: char) -> (r: char)
    ensures
        r == ascii_lower(c),
{
    if 'A' <= c && c <= 'Z' {
        let b = c as u8;
        assert(b as u32 == c as u32);
        let l = (b + 32) as char;
        l
    } else {
        c
    }
}

pub fn ascii_lower_exec(s: &[char]) -> (r: Vec<char>)
    ensures
        r@ == ascii_lower_seq(s@),
{
    let mut r: Vec<char> = Vec::new();
    let mut i: usize = 0;
    while i < s.len()
        invariant
            i <= s.len(),
            r@ == ascii_lower_seq(s@.take(i as int)),
        decreases s.len() - i,
    {
        r.push(ascii_lower_char(s[i]));
        assert(ascii_lower_seq(s@.take(i + 1)) =~= ascii_lower_seq(s@.take(i as int)).push(
            ascii_lower(s@[i as int]),
        ));
        i += 1;
    }
    assert(s@.take(s@.len() as int) =~= s@);
    r
}

pub fn eq_ignore_ascii_case_exec(a: &[char], b: &[char]) -> (r: bool)
    ensures
        r == eq_ignore_ascii_case(a@, b@),
{
    let la = ascii_lower_exec(a);
    let lb = ascii_lower_exec(b);
    chars_eq(la.as_slice(), lb.as_slice())
}

/// Result of `str::to_lowercase` (Unicode lower-case mapping of a whole string).
pub uninterp spec fn lowercase(s: Seq<char>) -> Seq<char>;

/// Result of `char::to_lowercase` (Unicode lower-case mapping of one character).
pub uninterp spec fn char_lowercase(c: char) -> Seq<char>;

/// `str::to_lowercase`; the result is the named mapping `lowercase`.
#[verifier::external_body]
pub(crate) fn to_lowercase(s: &str) -> (r: String)
    ensures
        r@ == lowercase(s@),
{
    s.to_lowercase()
}

/// `char::to_lowercase`, collected; the result is the named mapping `char_lowercase`.
#[verifier::external_body]
pub(crate) fn char_to_lowercase(c: char) -> (r: Vec<char>)
    ensures
        r@ == char_lowercase(c),
{
    c.to_lowercase().collect()
}

// ---------------------------------------------------------------------------
// Integer formatting and parsing
// ---------------------------------------------------------------------------

pub open spec fn digit_char(d: nat) -> char {
    if d < 10 {
        (('0' as u32) + d) as char
    } else {
        (('a' as u32) + (d - 10)) as char
    }
}

/// The digits of `n` in the given base, most significant first, lower-case
/// letters above nine, no padding (`{}` and `{:x}` formatting).
pub open spec fn digits(n: nat, base: nat) -> Seq<char>
    decreases n,
{
    if base < 2 || n < base {
        seq![digit_char(n)]
    } else {
        proof {
            vstd::arithmetic::div_mod::lemma_div_decreases(n as int, base as int);
        }
        digits(n / base, base).push(digit_char(n % base))
    }
}

pub open spec fn decimal(n: nat) -> Seq<char> {
    digits(n, 10)
}

fn digit_of(d: u64) -> (c: char)
    requires
        d < 16,
    ensures
        c == digit_char(d as nat),
{
    if d < 10 {
        let b: u8 = (48 + d) as u8;
        b as char
    } else {
        let b: u8 = (97 + d - 10) as u8;
        b as char
    }
}

/// Appends the base-`base` digits of `n` to `v`.
pub fn push_digits(v: &mut Vec<char>, n: u128, base: u128)
    requires
        2 <= base <= 16,
    ensures
        final(v)@ == old(v)@ + digits(n as nat, base as nat),
    decreases n,
{
    if n >= base {
        proof {
            vstd::arithmetic::div_mod::lemma_div_decreases(n as int, base as int);
        }
        push_digits(v, n / base, base);
    }
    let ghost mid = v@;
    let d = (n % base) as u64;
    v.push(digit_of(d));
    proof {
        if n >= base {
            assert(digits(n as nat, base as nat) == digits((n / base) as nat, base as nat).push(
                digit_char((n % base) as nat),
            ));
            assert(v@ =~= old(v)@ + digits(n as nat, base as nat));
        } else {
            vstd::arithmetic::div_mod::lemma_small_mod(n as nat, base as nat);
            assert(v@ =~= old(v)@ + digits(n as nat, base as nat));
        }
    }
}

/// Appends the decimal text of `n` to `v`.
pub fn push_decimal(v: &mut Vec<char>, n: u64)
    ensures
        final(v)@ == old(v)@ + decimal(n as nat),
{
    push_digits(v, n as u128, 10);
}

/// Appends the lower-case hexadecimal text of `n` to `v`.
pub fn push_hex(v: &mut Vec<char>, n: u128)
    ensures
        final(v)@ == old(v)@ + digits(n as nat, 16),
{
    push_digits(v, n, 16);
}

/// Two lower-case hex digits of a byte (`{:02x}`).
pub open spec fn hex_byte(b: u8) -> Seq<char> {
    seq![digit_char((b / 16) as nat), digit_char((b % 16) as nat)]
}

/// Lower-case hex text of a byte sequence, two digits per byte.
pub open spec fn hex_bytes(s: Seq<u8>) -> Seq<char>
    decreases s.len(),
{
    if s.len() == 0 {
        Seq::empty()
    } else {
        hex_bytes(s.drop_last()) + hex_byte(s.last())
    }
}

pub proof fn lemma_hex_bytes_len(s: Seq<u8>)
    ensures
        hex_bytes(s).len() == 2 * s.len(),
    decreases s.len(),
{
    if s.len() > 0 {
        lemma_hex_bytes_len(s.drop_last());
    }
}

/// Lower-case hex text of the first `n` bytes of `s`.
pub fn hex_prefix(s: &[u8], n: usize) -> (r: Vec<char>)
    requires
        n <= s.len(),
    ensures
        r@ == hex_bytes(s@.take(n as int)),
{
    let mut r: Vec<char> = Vec::new();
    let mut i: usize = 0;
    while i < n
        invariant
            i <= n <= s.len(),
            r@ == hex_bytes(s@.take(i as int)),
        decreases n - i,
    {
        let b = s[i];
        r.push(digit_of((b / 16) as u64));
        r.push(digit_of((b % 16) as u64));
        assert(s@.take(i + 1).drop_last() =~= s@.take(i as int));
        i += 1;
    }
    r
}

/// Value of a digit character, if it is an ASCII decimal digit.
pub open spec fn digit_value(c: char) -> Option<nat> {
    if '0' <= c && c <= '9' {
        Some((c as u32 - '0' as u32) as nat)
    } else {
        None
    }
}

pub open spec fn all_digits(s: Seq<char>) -> bool {
    forall|i: int| 0 <= i < s.len() ==> #[trigger] digit_value(s[i]) is Some
}

/// Numeric value of a string of decimal digits.
pub open spec fn digits_value(s: Seq<char>) -> nat
    decreases s.len(),
{
    if s.len() == 0 {
        0
    } else {
        digits_value(s.drop_last()) * 10 + match digit_value(s.last()) {
            Some(d) => d,
            None => 0,
        }
    }
}

/// Result of `str::parse::<u16>`: an optional `+` followed by one or more
/// ASCII digits whose value fits in 16 bits.
pub open spec fn parse_u16(s: Seq<char>) -> Option<u16> {
    let body = if s.len() > 0 && s[0] == '+' {
        s.drop_first()
    } else {
        s
    };
    if body.len() > 0 && all_digits(body) && digits_value(body) <= 0xffff {
        Some(digits_value(body) as u16)
    } else {
        None
    }
}

proof fn lemma_digits_value_mono(s: Seq<char>, i: int)
    requires
        0 <= i <= s.len(),
        all_digits(s),
    ensures
        digits_value(s.take(i)) <= digits_value(s),
    decreases s.len() - i,
{
    if i < s.len() {
        lemma_digits_value_mono(s, i + 1);
        assert(s.take(i + 1).drop_last() =~= s.take(i));
    } else {
        assert(s.take(i) =~= s);
    }
}

/// Parses an unsigned 16-bit decimal number (`str::parse::<u16>`).
pub fn parse_u16_exec(s: &[char]) -> (r: Option<u16>)
    ensures
        r == parse_u16(s@),
{
    let start: usize = if s.len() > 0 && s[0] == '+' {
        1
    } else {
        0
    };
    let ghost body = if s@.len() > 0 && s@[0] == '+' {
        s@.drop_first()
    } else {
        s@
    };
    assert(body =~= s@.skip(start as int));
    if start == s.len() {
        return None;
    }
    let mut acc: u32 = 0;
    let mut i = start;
    while i < s.len()
        invariant
            start <= i <= s.len(),
            body =~= s@.skip(start as int),
            body == (if s@.len() > 0 && s@[0] == '+' {
                s@.drop_first()
            } else {
                s@
            }),
            acc <= 0xffff,
            all_digits(s@.subrange(start as int, i as int)),
            acc == digits_value(s@.subrange(start as int, i as int)),
        decreases s.len() - i,
    {
        let c = s[i];
        if c < '0' || c > '9' {
            proof {
                let k = i - start;
                assert(body[k] == c);
                assert(digit_value(body[k]) is None);
                assert(!all_digits(body));
            }
            return None;
        }
        let d = (c as u32) - ('0' as u32);
        let next = acc * 10 + d;
        assert(s@.subrange(start as int, i + 1).drop_last() =~= s@.subrange(
            start as int,
            i as int,
        ));
        assert(all_digits(s@.subrange(start as int, i + 1))) by {
            assert forall|j: int| 0 <= j < i + 1 - start implies #[trigger] digit_value(
                s@.subrange(start as int, i + 1)[j],
            ) is Some by {
                if j < i - start {
                    assert(s@.subrange(start as int, i + 1)[j] == s@.subrange(
                        start as int,
                        i as int,
                    )[j]);
                }
            }
        }
        if next > 0xffff {
            proof {
                let x = s@.subrange(start as int, i + 1);
                assert(x.last() == c);
                assert(digits_value(x) == next);
                assert(body.take(i + 1 - start) =~= x);
                if all_digits(body) {
                    lemma_digits_value_mono(body, i + 1 - start);
                    assert(digits_value(body) > 0xffff);
                }
            }
            return None;
        }
        acc = next;
        i += 1;
    }
    assert(s@.subrange(start as int, s@.len() as int) =~= body);
    Some(acc as u16)
}

} // verus!

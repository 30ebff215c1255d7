//! PROXY protocol v1 (text form): `PROXY <fam> <src_ip> <dst_ip>
//! <src_port> <dst_port>`, with `fam` one of `TCP4`, `TCP6` or `UNKNOWN`.
//! The sidecar's forwarder writes it as the first line of every inbound
//! connection so the real peer address is known.

use vstd::prelude::*;

use crate::text::{chars_of, chars_eq, extend_chars, extend_str, parse_u16, parse_u16_exec, split_words, string_of, words};

verus! {

/// The peer address carried by a PROXY v1 header.
#[derive(Debug, Clone, PartialEq, Eq)]
pub struct ProxyV1Header {
    pub src_ip: String,
    pub src_port: u16,
}

/// Result of formatting a string slice with `{:?}`: the slice in double
/// quotes with `str::escape_debug` applied.
pub uninterp spec fn debug_str(s: Seq<char>) -> Seq<char>;

/// `format!("{:?}", s)` for a string slice.
#[verifier::external_body]
fn debug_quoted(s: &str) -> (r: String)
    ensures
        r@ == debug_str(s@),
{
    format!("{:?}", s)
}

/// What a PROXY v1 line parses to: the source address, or the error text.
pub open spec fn proxy_parse(line: Seq<char>) -> Result<(Seq<char>, u16), Seq<char>> {
    let ws = words(line);
    if ws.len() == 0 {
        Err("empty PROXY line"@)
    } else if ws[0] != "PROXY"@ {
        Err("expected 'PROXY ' prefix, got "@ + debug_str(ws[0]))
    } else if ws.len() < 2 {
        Err("missing family"@)
    } else if ws[1] == "UNKNOWN"@ {
        Ok(("0.0.0.0"@, 0u16))
    } else if ws[1] == "TCP4"@ || ws[1] == "TCP6"@ {
        if ws.len() < 3 {
            Err("missing src ip"@)
        } else if ws.len() < 4 {
            Err("missing dst ip"@)
        } else if ws.len() < 5 {
            Err("missing src port"@)
        } else if ws.len() < 6 {
            Err("missing dst port"@)
        } else {
            match parse_u16(ws[4]) {
                Some(p) => Ok((ws[2], p)),
                None => Err("parsing src port"@),
            }
        }
    } else {
        Err("unknown PROXY family: "@ + ws[1])
    }
}

fn err_text(s: &str) -> (r: Result<ProxyV1Header, String>)
    ensures
        r matches Err(e) && e@ == s@,
{
    Err(crate::text::owned(s))
}

fn word_is(w: &Vec<char>, s: &str) -> (r: bool)
    ensures
        r == (w@ == s@),
{
    let sc = chars_of(s);
    chars_eq(w.as_slice(), sc.as_slice())
}

/// Parse a PROXY v1 line (without its line terminator).
pub fn parse_line(line: &str) -> (r: Result<ProxyV1Header, String>)
    ensures
        match proxy_parse(line@) {
            Ok((ip, port)) => r matches Ok(h) && h.src_ip@ == ip && h.src_port == port,
            Err(msg) => r matches Err(e) && e@ == msg,
        },
{
    let l = chars_of(line);
    let ws = split_words(l.as_slice());
    if ws.len() == 0 {
        return err_text("empty PROXY line");
    }
    if !word_is(&ws[0], "PROXY") {
        let p = string_of(ws[0].as_slice());
        let dq = debug_quoted(p.as_str());
        let mut e: Vec<char> = Vec::new();
        extend_str(&mut e, "expected 'PROXY ' prefix, got ");
        extend_str(&mut e, dq.as_str());
        return Err(string_of(e.as_slice()));
    }
    if ws.len() < 2 {
        return err_text("missing family");
    }
    if word_is(&ws[1], "UNKNOWN") {
        return Ok(ProxyV1Header { src_ip: crate::text::owned("0.0.0.0"), src_port: 0 });
    }
    if word_is(&ws[1], "TCP4") || word_is(&ws[1], "TCP6") {
        if ws.len() < 3 {
            return err_text("missing src ip");
        }
        if ws.len() < 4 {
            return err_text("missing dst ip");
        }
        if ws.len() < 5 {
            return err_text("missing src port");
        }
        if ws.len() < 6 {
            return err_text("missing dst port");
        }
        return match parse_u16_exec(ws[4].as_slice()) {
            Some(p) => Ok(ProxyV1Header { src_ip: string_of(ws[2].as_slice()), src_port: p }),
            None => err_text("parsing src port"),
        };
    }
    let mut e: Vec<char> = Vec::new();
    extend_str(&mut e, "unknown PROXY family: ");
    extend_chars(&mut e, ws[1].as_slice());
    Err(string_of(e.as_slice()))
}

/// `s` without trailing `\r` and `\n` characters.
pub open spec fn strip_line_end(s: Seq<char>) -> Seq<char>
    decreases s.len(),
{
    if s.len() > 0 && (s.last() == '\r' || s.last() == '\n') {
        strip_line_end(s.drop_last())
    } else {
        s
    }
}

/// Parse the header line as read from the connection, terminator included.
pub fn parse_header_line(raw: &str) -> (r: Result<ProxyV1Header, String>)
    ensures
        match proxy_parse(strip_line_end(raw@)) {
            Ok((ip, port)) => r matches Ok(h) && h.src_ip@ == ip && h.src_port == port,
            Err(msg) => r matches Err(e) && e@ == msg,
        },
{
    let c = chars_of(raw);
    let mut k = c.len();
    assert(c@.take(k as int) =~= c@);
    while k > 0 && (c[k - 1] == '\r' || c[k - 1] == '\n')
        invariant
            k <= c@.len(),
            strip_line_end(raw@) == strip_line_end(c@.take(k as int)),
            c@ == raw@,
        decreases k,
    {
        assert(c@.take(k as int).drop_last() =~= c@.take(k - 1));
        k -= 1;
    }
    assert(c@ == raw@);
    let t = crate::text::slice_chars(c.as_slice(), 0, k);
    assert(t@ =~= c@.take(k as int));
    let s = string_of(t.as_slice());
    parse_line(s.as_str())
}

} // verus!

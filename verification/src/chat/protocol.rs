//! Frame protocol: a 4-byte big-endian length, then that many bytes of
//! UTF-8 JSON. Frames are capped at 64 KiB so a bogus length prefix from
//! a peer cannot make us allocate gigabytes.

use vstd::prelude::*;

use crate::digest::push_bytes;
use crate::text::{decimal, extend_str, push_decimal, string_of};

verus! {

/// Largest accepted frame body.
pub const MAX_FRAME_BYTES: usize = 65536;

/// The four big-endian bytes of a 32-bit length.
pub open spec fn be32(n: nat) -> Seq<u8> {
    seq![
        ((n / 16777216) % 256) as u8,
        ((n / 65536) % 256) as u8,
        ((n / 256) % 256) as u8,
        (n % 256) as u8,
    ]
}

/// The length a big-endian header encodes.
pub open spec fn be_value(h: Seq<u8>) -> nat {
    (h[0] as nat) * 16777216 + (h[1] as nat) * 65536 + (h[2] as nat) * 256 + (h[3] as nat)
}

/// What a frame header decodes to: the body length, or the error text.
pub open spec fn header_result(h: Seq<u8>) -> Result<nat, Seq<char>> {
    let n = be_value(h);
    if n == 0 {
        Err("empty frame"@)
    } else if n > MAX_FRAME_BYTES {
        Err("frame too large: "@ + decimal(n) + " bytes (max 65536)"@)
    } else {
        Ok(n)
    }
}

/// Frame a serialised message: its length, big-endian, then the bytes.
pub fn encode_frame(payload: &[u8]) -> (r: Result<Vec<u8>, String>)
    ensures
        payload@.len() > MAX_FRAME_BYTES ==> (r matches Err(e) && e@ == "frame too large: "@
            + decimal(payload@.len()) + " bytes"@),
        payload@.len() <= MAX_FRAME_BYTES ==> (r matches Ok(v) && v@ == be32(payload@.len())
            + payload@),
{
    let n = payload.len();
    if n > MAX_FRAME_BYTES {
        let mut e: Vec<char> = Vec::new();
        extend_str(&mut e, "frame too large: ");
        push_decimal(&mut e, n as u64);
        extend_str(&mut e, " bytes");
        return Err(string_of(e.as_slice()));
    }
    let n32 = n as u32;
    let mut out: Vec<u8> = Vec::new();
    out.push(((n32 / 16777216) % 256) as u8);
    out.push(((n32 / 65536) % 256) as u8);
    out.push(((n32 / 256) % 256) as u8);
    out.push((n32 % 256) as u8);
    push_bytes(&mut out, payload);
    assert(out@ =~= be32(payload@.len()) + payload@);
    Ok(out)
}

/// Check a frame header and return the body length to read.
pub fn frame_length(header: [u8; 4]) -> (r: Result<usize, String>)
    ensures
        match header_result(header@) {
            Ok(n) => r == Ok::<usize, String>(n as usize),
            Err(m) => r matches Err(e) && e@ == m,
        },
{
    let n: u64 = (header[0] as u64) * 16777216 + (header[1] as u64) * 65536 + (header[2] as u64)
        * 256 + (header[3] as u64);
    if n == 0 {
        return Err(crate::text::owned("empty frame"));
    }
    if n > 65536 {
        let mut e: Vec<char> = Vec::new();
        extend_str(&mut e, "frame too large: ");
        push_decimal(&mut e, n);
        extend_str(&mut e, " bytes (max 65536)");
        return Err(string_of(e.as_slice()));
    }
    Ok(n as usize)
}

/// A framed message's header decodes back to its body length: every
/// non-empty body within the cap is accepted with exactly its length.
pub proof fn lemma_frame_length_round_trip(n: nat)
    requires
        0 < n <= MAX_FRAME_BYTES,
    ensures
        header_result(be32(n)) == Ok::<nat, Seq<char>>(n),
{
    let h = be32(n);
    assert(be_value(h) == n) by (nonlinear_arith)
        requires
            h == be32(n),
            n <= 65536,
    {
        assert(n / 16777216 == 0);
        assert((n / 65536) % 256 == n / 65536);
        assert(h[1] as nat == n / 65536);
        assert(h[0] as nat == 0);
        assert(h[2] as nat == (n / 256) % 256);
        assert(h[3] as nat == n % 256);
    }
}

/// A framed body reads back whole: the first four bytes of the frame of a
/// non-empty body within the cap decode to its length, and the bytes
/// after them are the body.
pub proof fn lemma_frame_round_trip(body: Seq<u8>)
    requires
        0 < body.len() <= MAX_FRAME_BYTES,
    ensures
        header_result((be32(body.len()) + body).take(4)) == Ok::<nat, Seq<char>>(body.len()),
        (be32(body.len()) + body).skip(4) == body,
        (be32(body.len()) + body).len() == 4 + body.len(),
{
    let f = be32(body.len()) + body;
    assert(f.take(4) =~= be32(body.len()));
    assert(f.skip(4) =~= body);
    lemma_frame_length_round_trip(body.len());
}

} // verus!

//! The SOCKS5 CONNECT exchange (RFC 1928, no authentication) with the
//! sidecar's local outbound proxy: the bytes sent and the checks on the
//! bytes received. The socket I/O is done by the host application.

use vstd::prelude::*;

use crate::text::{decimal, extend_str, push_decimal, string_of};

verus! {

pub const VER: u8 = 5;
pub const CMD_CONNECT: u8 = 1;
pub const RSV: u8 = 0;
pub const ATYP_IPV4: u8 = 1;
pub const ATYP_DOMAIN: u8 = 3;
pub const ATYP_IPV6: u8 = 4;
pub const NO_AUTH: u8 = 0;

/// Where a CONNECT goes: an IPv4 or IPv6 address (octets in network
/// order) or a host name.
#[derive(Debug, Clone)]
pub enum TargetAddr {
    Ipv4([u8; 4]),
    Ipv6([u8; 16]),
    Domain(String),
}

/// The client greeting: version 5, one method, "no authentication".
pub fn greeting() -> (r: Vec<u8>)
    ensures
        r@ == seq![VER, 1u8, NO_AUTH],
{
    vec![VER, 1, NO_AUTH]
}

/// `format!("{:?}", [a, b])` for a byte pair.
pub open spec fn debug_pair(a: u8, b: u8) -> Seq<char> {
    "["@ + decimal(a as nat) + ", "@ + decimal(b as nat) + "]"@
}

/// Check the proxy's reply to the greeting: it must select "no
/// authentication" under version 5.
pub fn check_greeting_reply(reply: [u8; 2]) -> (r: Result<(), String>)
    ensures
        reply@[0] == VER && reply@[1] == NO_AUTH ==> r is Ok,
        !(reply@[0] == VER && reply@[1] == NO_AUTH) ==> (r matches Err(e) && e@
            == "SOCKS5 greeting refused: "@ + debug_pair(reply@[0], reply@[1])),
{
    if reply[0] == VER && reply[1] == NO_AUTH {
        return Ok(());
    }
    let mut e: Vec<char> = Vec::new();
    extend_str(&mut e, "SOCKS5 greeting refused: ");
    extend_str(&mut e, "[");
    push_decimal(&mut e, reply[0] as u64);
    extend_str(&mut e, ", ");
    push_decimal(&mut e, reply[1] as u64);
    extend_str(&mut e, "]");
    assert(e@ =~= "SOCKS5 greeting refused: "@ + debug_pair(reply@[0], reply@[1]));
    Err(string_of(e.as_slice()))
}

/// Big-endian bytes of a port.
pub open spec fn port_bytes(port: u16) -> Seq<u8> {
    seq![(port / 256) as u8, (port % 256) as u8]
}

/// The address part of a CONNECT request.
pub open spec fn addr_bytes(target: TargetAddr) -> Seq<u8> {
    match target {
        TargetAddr::Ipv4(o) => seq![ATYP_IPV4] + o@,
        TargetAddr::Ipv6(o) => seq![ATYP_IPV6] + o@,
        TargetAddr::Domain(h) => seq![ATYP_DOMAIN, vstd::utf8::encode_utf8(h@).len() as u8]
            + vstd::utf8::encode_utf8(h@),
    }
}

/// A host name longer than 255 bytes cannot be sent.
pub open spec fn name_too_long(target: TargetAddr) -> bool {
    target matches TargetAddr::Domain(h) && vstd::utf8::encode_utf8(h@).len() > 255
}

fn push_all(out: &mut Vec<u8>, b: &[u8])
    ensures
        final(out)@ == old(out)@ + b@,
{
    crate::digest::push_bytes(out, b);
}

/// The CONNECT request for `target:port`, or the error for a host name too
/// long to encode.
pub fn connect_request(target: &TargetAddr, port: u16) -> (r: Result<Vec<u8>, String>)
    ensures
        !name_too_long(*target) ==> (r matches Ok(v) && v@ == seq![VER, CMD_CONNECT, RSV]
            + addr_bytes(*target) + port_bytes(port)),
        name_too_long(*target) ==> (r matches Err(e) && e@ == "SOCKS5 hostname too long: "@
            + decimal(vstd::utf8::encode_utf8(target->Domain_0@).len()) + " bytes"@),
{
    let mut req: Vec<u8> = vec![VER, CMD_CONNECT, RSV];
    match target {
        TargetAddr::Ipv4(o) => {
            req.push(ATYP_IPV4);
            push_all(&mut req, o.as_slice());
        },
        TargetAddr::Ipv6(o) => {
            req.push(ATYP_IPV6);
            push_all(&mut req, o.as_slice());
        },
        TargetAddr::Domain(h) => {
            let bytes = h.as_str().as_bytes();
            assert(bytes@ == vstd::utf8::encode_utf8(h@));
            if bytes.len() > 255 {
                let mut e: Vec<char> = Vec::new();
                extend_str(&mut e, "SOCKS5 hostname too long: ");
                push_decimal(&mut e, bytes.len() as u64);
                extend_str(&mut e, " bytes");
                return Err(string_of(e.as_slice()));
            }
            req.push(ATYP_DOMAIN);
            req.push(bytes.len() as u8);
            push_all(&mut req, bytes);
        },
    }
    req.push((port / 256) as u8);
    req.push((port % 256) as u8);
    assert(req@ =~= seq![VER, CMD_CONNECT, RSV] + addr_bytes(*target) + port_bytes(port));
    Ok(req)
}

/// How many bytes of bound address and port follow a CONNECT reply head.
#[derive(Debug, Clone, Copy, PartialEq, Eq, Structural)]
pub enum ReplyTail {
    /// A fixed number of bytes.
    Fixed(usize),
    /// A length byte, then that many bytes plus two.
    Domain,
}

/// Check the first four bytes of the CONNECT reply (version, reply code,
/// reserved, address type) and say what remains to be read.
pub fn check_connect_reply(head: [u8; 4]) -> (r: Result<ReplyTail, String>)
    ensures
        head@[0] != VER ==> (r matches Err(e) && e@ == "SOCKS5 reply: bad version "@ + decimal(
            head@[0] as nat,
        )),
        head@[0] == VER && head@[1] != 0 ==> (r matches Err(e) && e@ == "SOCKS5 CONNECT failed: REP="@
            + decimal(head@[1] as nat)),
        head@[0] == VER && head@[1] == 0 ==> (r == match head@[3] {
            1u8 => Ok::<ReplyTail, String>(ReplyTail::Fixed(6)),
            4u8 => Ok::<ReplyTail, String>(ReplyTail::Fixed(18)),
            3u8 => Ok::<ReplyTail, String>(ReplyTail::Domain),
            _ => r,
        }),
        head@[0] == VER && head@[1] == 0 && head@[3] != 1 && head@[3] != 3 && head@[3] != 4 ==> (r matches Err(e)
            && e@ == "SOCKS5 reply: unknown ATYP "@ + decimal(head@[3] as nat)),
{
    if head[0] != VER {
        let mut e: Vec<char> = Vec::new();
        extend_str(&mut e, "SOCKS5 reply: bad version ");
        push_decimal(&mut e, head[0] as u64);
        return Err(string_of(e.as_slice()));
    }
    if head[1] != 0 {
        let mut e: Vec<char> = Vec::new();
        extend_str(&mut e, "SOCKS5 CONNECT failed: REP=");
        push_decimal(&mut e, head[1] as u64);
        return Err(string_of(e.as_slice()));
    }
    if head[3] == ATYP_IPV4 {
        Ok(ReplyTail::Fixed(6))
    } else if head[3] == ATYP_IPV6 {
        Ok(ReplyTail::Fixed(18))
    } else if head[3] == ATYP_DOMAIN {
        Ok(ReplyTail::Domain)
    } else {
        let mut e: Vec<char> = Vec::new();
        extend_str(&mut e, "SOCKS5 reply: unknown ATYP ");
        push_decimal(&mut e, head[3] as u64);
        Err(string_of(e.as_slice()))
    }
}

} // verus!

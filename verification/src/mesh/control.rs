//! The sidecar's command line and control-API endpoints.

use vstd::prelude::*;

use crate::mesh::types::MeshPorts;
use crate::text::{chars_of, decimal, extend_str, push_decimal, string_of};

verus! {

/// The control-API URL of an endpoint (`/status`, `/shutdown`, `/health`).
pub open spec fn control_url_of(ports: MeshPorts, endpoint: Seq<char>) -> Seq<char> {
    "http://127.0.0.1:"@ + decimal(ports.control as nat) + endpoint
}

/// URL of a control-API endpoint on localhost.
pub fn control_url(ports: MeshPorts, endpoint: &str) -> (r: String)
    ensures
        r@ == control_url_of(ports, endpoint@),
{
    let mut v: Vec<char> = Vec::new();
    extend_str(&mut v, "http://127.0.0.1:");
    push_decimal(&mut v, ports.control as u64);
    extend_str(&mut v, endpoint);
    string_of(v.as_slice())
}

/// The sidecar's arguments: its three ports, then the auth key when a
/// non-empty one is given.
pub open spec fn sidecar_args_of(ports: MeshPorts, authkey: Option<Seq<char>>) -> Seq<Seq<char>> {
    let base = seq![
        "--ctl"@,
        decimal(ports.control as nat),
        "--socks"@,
        decimal(ports.socks5 as nat),
        "--chat"@,
        decimal(ports.chat as nat),
    ];
    match authkey {
        Some(k) => if k.len() > 0 {
            base + seq!["--authkey"@, k]
        } else {
            base
        },
        None => base,
    }
}

fn number(n: u16) -> (r: String)
    ensures
        r@ == decimal(n as nat),
{
    let mut v: Vec<char> = Vec::new();
    push_decimal(&mut v, n as u64);
    string_of(v.as_slice())
}

/// Command-line arguments the sidecar is spawned with.
pub fn sidecar_args(ports: MeshPorts, authkey: Option<&str>) -> (r: Vec<String>)
    ensures
        r@.map_values(|s: String| s@) == sidecar_args_of(
            ports,
            match authkey {
                Some(k) => Some(k@),
                None => None,
            },
        ),
{
    let mut args: Vec<String> = Vec::new();
    args.push(crate::text::owned("--ctl"));
    args.push(number(ports.control));
    args.push(crate::text::owned("--socks"));
    args.push(number(ports.socks5));
    args.push(crate::text::owned("--chat"));
    args.push(number(ports.chat));
    match authkey {
        Some(k) => {
            if chars_of(k).len() > 0 {
                args.push(crate::text::owned("--authkey"));
                args.push(crate::text::owned(k));
            }
        },
        None => {},
    }
    proof {
        let ak = match authkey {
            Some(k) => Some(k@),
            None => None,
        };
        assert(args@.map_values(|s: String| s@) =~= sidecar_args_of(ports, ak));
    }
    args
}

} // verus!

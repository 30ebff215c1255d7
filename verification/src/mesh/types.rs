//! Sidecar wire types.

use vstd::prelude::*;

verus! {

/// The sidecar's `/status` report.
#[derive(Debug, Clone, Default)]
pub struct MeshStatus {
    pub installed: bool,
    pub backend_state: String,
    pub version: String,
    pub self_ip: String,
    pub self_dns: String,
    pub needs_auth: bool,
    pub auth_url: String,
    pub peers: Vec<MeshPeer>,
}

/// One tailnet peer as the sidecar reports it.
#[derive(Debug, Clone, Default)]
pub struct MeshPeer {
    pub host_name: String,
    pub dns_name: String,
    pub addrs: Vec<String>,
    pub online: bool,
    pub os: String,
}

/// Ports the sidecar binds on localhost.
#[derive(Debug, Clone, Copy, PartialEq, Eq, Structural)]
pub struct MeshPorts {
    pub control: u16,
    pub socks5: u16,
    pub chat: u16,
}

impl Default for MeshPorts {
    fn default() -> (r: Self)
        ensures
            r.control == 7080,
            r.socks5 == 1080,
            r.chat == 47992,
    {
        MeshPorts { control: 7080, socks5: 1080, chat: 47992 }
    }
}

} // verus!

//! Mesh transport: the wire types of the bundled sidecar's control API, the
//! PROXY v1 header the sidecar's forwarder prepends to inbound connections,
//! and the SOCKS5 CONNECT exchange used for outbound connections.

pub mod types;
pub mod proxy_protocol;
pub mod socks5;
pub mod control;

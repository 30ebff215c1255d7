use abyss_singularity::mesh::control::{control_url, sidecar_args};
use abyss_singularity::mesh::proxy_protocol::{parse_header_line, parse_line};
use abyss_singularity::mesh::socks5::{
    check_connect_reply, check_greeting_reply, connect_request, greeting, ReplyTail, TargetAddr,
};
use abyss_singularity::mesh::types::MeshPorts;

// ---------- PROXY protocol ---------------------------------------------------------

#[test]
fn parses_a_tcp4_proxy_v1_line() {
    let h = parse_line("PROXY TCP4 100.64.0.5 100.64.0.1 12345 47992").unwrap();
    assert_eq!(h.src_ip, "100.64.0.5");
    assert_eq!(h.src_port, 12345);
}

#[test]
fn parses_a_tcp6_proxy_v1_line() {
    let h = parse_line("PROXY TCP6 fd7a:115c:a1e0::5 fd7a:115c:a1e0::1 5000 47992").unwrap();
    assert_eq!(h.src_ip, "fd7a:115c:a1e0::5");
    assert_eq!(h.src_port, 5000);
}

#[test]
fn accepts_unknown_family() {
    let h = parse_line("PROXY UNKNOWN").unwrap();
    assert_eq!(h.src_ip, "0.0.0.0");
    assert_eq!(h.src_port, 0);
}

#[test]
fn rejects_missing_prefix() {
    let err = parse_line("WRONG TCP4 1.2.3.4 5.6.7.8 1 2").unwrap_err();
    assert!(err.to_string().contains("PROXY"));
}

#[test]
fn rejects_malformed_port() {
    let err = parse_line("PROXY TCP4 1.2.3.4 5.6.7.8 not_a_port 47992").unwrap_err();
    assert!(err.to_string().contains("src port"));
}

#[test]
fn rejects_unknown_family() {
    let err = parse_line("PROXY MARS 1.2.3.4 5.6.7.8 1 2").unwrap_err();
    assert!(err.to_string().contains("unknown PROXY family"));
}

#[test]
fn missing_prefix_error_quotes_the_word_debug_style() {
    assert_eq!(
        parse_line("WRONG TCP4 1.2.3.4 5.6.7.8 1 2").unwrap_err(),
        "expected 'PROXY ' prefix, got \"WRONG\""
    );
    assert_eq!(
        parse_line("PR\"OXY x").unwrap_err(),
        "expected 'PROXY ' prefix, got \"PR\\\"OXY\""
    );
}

#[test]
fn proxy_errors_name_the_missing_field() {
    assert_eq!(parse_line("").unwrap_err(), "empty PROXY line");
    assert_eq!(parse_line("PROXY").unwrap_err(), "missing family");
    assert_eq!(parse_line("PROXY TCP4 1.2.3.4").unwrap_err(), "missing dst ip");
    assert_eq!(parse_line("PROXY TCP4 1.2.3.4 5.6.7.8 1").unwrap_err(), "missing dst port");
    assert_eq!(parse_line("PROXY TCP4 1.2.3.4 5.6.7.8 70000 1").unwrap_err(), "parsing src port");
}

#[test]
fn header_line_terminator_is_stripped() {
    let h = parse_header_line("PROXY TCP4 100.64.0.5 100.64.0.1 8080 47992\r\n").unwrap();
    assert_eq!(h.src_ip, "100.64.0.5");
    assert_eq!(h.src_port, 8080);
}

// ---------- SOCKS5 -----------------------------------------------------------------

#[test]
fn socks5_greeting_and_reply() {
    assert_eq!(greeting(), vec![5, 1, 0]);
    assert!(check_greeting_reply([5, 0]).is_ok());
    assert_eq!(check_greeting_reply([5, 255]).unwrap_err(), "SOCKS5 greeting refused: [5, 255]");
}

#[test]
fn socks5_connect_request_encodes_each_address_kind() {
    assert_eq!(
        connect_request(&TargetAddr::Ipv4([100, 64, 0, 5]), 47992).unwrap(),
        vec![5, 1, 0, 1, 100, 64, 0, 5, 0xBB, 0x78]
    );
    assert_eq!(
        connect_request(&TargetAddr::Domain("pal".into()), 80).unwrap(),
        vec![5, 1, 0, 3, 3, b'p', b'a', b'l', 0, 80]
    );
    let v6 = connect_request(&TargetAddr::Ipv6([0; 16]), 1).unwrap();
    assert_eq!(v6.len(), 4 + 16 + 2);
    assert_eq!(v6[3], 4);
    let long = "a".repeat(256);
    assert_eq!(
        connect_request(&TargetAddr::Domain(long), 80).unwrap_err(),
        "SOCKS5 hostname too long: 256 bytes"
    );
}

#[test]
fn socks5_connect_reply_checks() {
    assert_eq!(check_connect_reply([5, 0, 0, 1]), Ok(ReplyTail::Fixed(6)));
    assert_eq!(check_connect_reply([5, 0, 0, 4]), Ok(ReplyTail::Fixed(18)));
    assert_eq!(check_connect_reply([5, 0, 0, 3]), Ok(ReplyTail::Domain));
    assert_eq!(check_connect_reply([4, 0, 0, 1]).unwrap_err(), "SOCKS5 reply: bad version 4");
    assert_eq!(check_connect_reply([5, 5, 0, 1]).unwrap_err(), "SOCKS5 CONNECT failed: REP=5");
    assert_eq!(check_connect_reply([5, 0, 0, 9]).unwrap_err(), "SOCKS5 reply: unknown ATYP 9");
}

// ---------- sidecar control ---------------------------------------------------------------

#[test]
fn sidecar_command_line_and_control_urls() {
    let ports = MeshPorts::default();
    assert_eq!(control_url(ports, "/status"), "http://127.0.0.1:7080/status");
    assert_eq!(
        sidecar_args(ports, None),
        vec!["--ctl", "7080", "--socks", "1080", "--chat", "47992"]
    );
    assert_eq!(sidecar_args(ports, Some("")).len(), 6);
    assert_eq!(
        sidecar_args(ports, Some("tskey-1")),
        vec!["--ctl", "7080", "--socks", "1080", "--chat", "47992", "--authkey", "tskey-1"]
    );
}

//! Byte-level parsers: IP literals, ports and request targets, with exact
//! expected values and rejected malformed inputs.

use outbound_egress::allow::Scheme;
use outbound_egress::ip::{IpAddress, Ipv4Address, Ipv6Address};
use outbound_egress::parse::{parse_ip_literal, parse_ipv4, parse_ipv6, parse_port};
use outbound_egress::request::{is_self_target, parse_target, Target};

fn bytes(s: &str) -> Vec<u8> {
    s.as_bytes().to_vec()
}

fn hextets(ip: Ipv6Address) -> [u16; 8] {
    [ip.s0, ip.s1, ip.s2, ip.s3, ip.s4, ip.s5, ip.s6, ip.s7]
}

#[test]
fn ipv4_literals() {
    assert_eq!(
        parse_ipv4(&bytes("127.0.0.1")),
        Some(Ipv4Address { a: 127, b: 0, c: 0, d: 1 })
    );
    assert_eq!(
        parse_ipv4(&bytes("255.255.255.255")),
        Some(Ipv4Address { a: 255, b: 255, c: 255, d: 255 })
    );
    assert!(parse_ipv4(&bytes("1.2.3")).is_none());
    assert!(parse_ipv4(&bytes("1.2.3.4.5")).is_none());
    assert!(parse_ipv4(&bytes("256.0.0.1")).is_none());
    assert!(parse_ipv4(&bytes("1.2.3.x")).is_none());
    assert!(parse_ipv4(&bytes("")).is_none());
}

#[test]
fn ipv6_literals() {
    assert_eq!(
        parse_ipv6(&bytes("100::1")).map(hextets),
        Some([0x0100, 0, 0, 0, 0, 0, 0, 1])
    );
    assert_eq!(parse_ipv6(&bytes("::1")).map(hextets), Some([0, 0, 0, 0, 0, 0, 0, 1]));
    assert_eq!(parse_ipv6(&bytes("::")).map(hextets), Some([0, 0, 0, 0, 0, 0, 0, 0]));
    assert_eq!(
        parse_ipv6(&bytes("fe80::")).map(hextets),
        Some([0xfe80, 0, 0, 0, 0, 0, 0, 0])
    );
    assert_eq!(
        parse_ipv6(&bytes("2001:db8:0:0:0:0:2:1")).map(hextets),
        Some([0x2001, 0x0db8, 0, 0, 0, 0, 2, 1])
    );
    assert_eq!(
        parse_ipv6(&bytes("a:B:c:D:e:F:1:2")).map(hextets),
        Some([0xa, 0xb, 0xc, 0xd, 0xe, 0xf, 1, 2])
    );
    // too few groups without compression, too many with it
    assert!(parse_ipv6(&bytes("1:2:3")).is_none());
    assert!(parse_ipv6(&bytes("1:2:3:4:5:6:7:8:9")).is_none());
    assert!(parse_ipv6(&bytes("1:2:3:4::5:6:7:8")).is_none());
    // a second compression marker, trailing colon, overlong group
    assert!(parse_ipv6(&bytes("1::2::3")).is_none());
    assert!(parse_ipv6(&bytes("1:2:")).is_none());
    assert!(parse_ipv6(&bytes("12345::")).is_none());
    assert!(parse_ipv6(&bytes("")).is_none());
}

#[test]
fn ip_literals_pick_the_right_family() {
    assert_eq!(
        parse_ip_literal(&bytes("1.1.1.1")),
        Some(IpAddress::V4(Ipv4Address { a: 1, b: 1, c: 1, d: 1 }))
    );
    assert!(matches!(parse_ip_literal(&bytes("100::1")), Some(IpAddress::V6(_))));
    assert!(parse_ip_literal(&bytes("localhost")).is_none());
    assert!(parse_ip_literal(&bytes("example.com")).is_none());
}

#[test]
fn ports() {
    assert_eq!(parse_port(&bytes("0")), Some(0));
    assert_eq!(parse_port(&bytes("443")), Some(443));
    assert_eq!(parse_port(&bytes("65535")), Some(65535));
    assert!(parse_port(&bytes("65536")).is_none());
    assert!(parse_port(&bytes("")).is_none());
    assert!(parse_port(&bytes("4x3")).is_none());
}

#[test]
fn absolute_targets() {
    let t = parse_target(&bytes("https://denied.test")).unwrap();
    assert_eq!(
        t,
        Target::Absolute {
            scheme: Scheme::Https,
            host: bytes("denied.test"),
            port: None,
            path: bytes("/"),
        }
    );
    assert!(!is_self_target(&t));

    let t = parse_target(&bytes("https://[100::1]:443")).unwrap();
    assert_eq!(
        t,
        Target::Absolute {
            scheme: Scheme::Https,
            host: bytes("100::1"),
            port: Some(443),
            path: bytes("/"),
        }
    );

    let t = parse_target(&bytes("http://localhost:8080/api/v1?q=2")).unwrap();
    assert_eq!(
        t,
        Target::Absolute {
            scheme: Scheme::Http,
            host: bytes("localhost"),
            port: Some(8080),
            path: bytes("/api/v1?q=2"),
        }
    );
}

#[test]
fn self_targets() {
    let t = parse_target(&bytes("/self-request")).unwrap();
    assert_eq!(t, Target::SelfRelative { path: bytes("/self-request") });
    assert!(is_self_target(&t));

    let t = parse_target(&bytes("http://self/inner")).unwrap();
    assert!(is_self_target(&t));
    assert_eq!(
        t,
        Target::Absolute {
            scheme: Scheme::Http,
            host: bytes("self"),
            port: None,
            path: bytes("/inner"),
        }
    );
}

#[test]
fn malformed_targets_are_rejected() {
    assert!(parse_target(&bytes("")).is_none());
    assert!(parse_target(&bytes("ftp://host/")).is_none());
    assert!(parse_target(&bytes("https://")).is_none());
    assert!(parse_target(&bytes("https://:443")).is_none());
    assert!(parse_target(&bytes("https://host:port")).is_none());
    assert!(parse_target(&bytes("https://[100::1")).is_none());
    assert!(parse_target(&bytes("denied.test")).is_none());
}

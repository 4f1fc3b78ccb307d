//! The address classifier on concrete addresses from each range it must
//! recognize, and on public addresses it must not touch.

use outbound_egress::ip::{classify, AddressClass, IpAddress, Ipv4Address, Ipv6Address};

fn v4(a: u8, b: u8, c: u8, d: u8) -> IpAddress {
    IpAddress::V4(Ipv4Address { a, b, c, d })
}

fn v6(s: [u16; 8]) -> IpAddress {
    IpAddress::V6(Ipv6Address {
        s0: s[0],
        s1: s[1],
        s2: s[2],
        s3: s[3],
        s4: s[4],
        s5: s[5],
        s6: s[6],
        s7: s[7],
    })
}

fn private(ip: IpAddress) -> bool {
    matches!(classify(&ip), AddressClass::Private)
}

#[test]
fn v4_private_ranges_are_private() {
    assert!(private(v4(10, 1, 2, 3)));
    assert!(private(v4(127, 0, 0, 1)));
    assert!(private(v4(169, 254, 9, 9)));
    assert!(private(v4(172, 16, 0, 1)));
    assert!(private(v4(172, 31, 255, 255)));
    assert!(private(v4(192, 168, 1, 1)));
    assert!(private(v4(100, 64, 0, 1)));
    assert!(private(v4(100, 127, 255, 255)));
    assert!(private(v4(0, 0, 0, 0)));
    assert!(private(v4(255, 255, 255, 255)));
    assert!(private(v4(240, 0, 0, 1)));
    assert!(private(v4(192, 0, 2, 7)));
    assert!(private(v4(198, 51, 100, 1)));
    assert!(private(v4(203, 0, 113, 200)));
    assert!(private(v4(198, 18, 0, 1)));
}

#[test]
fn v4_public_addresses_are_public() {
    assert!(!private(v4(1, 1, 1, 1)));
    assert!(!private(v4(8, 8, 8, 8)));
    assert!(!private(v4(100, 63, 255, 255)));
    assert!(!private(v4(100, 128, 0, 0)));
    assert!(!private(v4(172, 15, 0, 1)));
    assert!(!private(v4(172, 32, 0, 1)));
    assert!(!private(v4(192, 167, 0, 1)));
    assert!(!private(v4(203, 0, 114, 1)));
    assert!(!private(v4(239, 255, 255, 255)));
}

#[test]
fn v6_reserved_ranges_are_private() {
    // unspecified and loopback
    assert!(private(v6([0, 0, 0, 0, 0, 0, 0, 0])));
    assert!(private(v6([0, 0, 0, 0, 0, 0, 0, 1])));
    // discard prefix 100::/64
    assert!(private(v6([0x0100, 0, 0, 0, 0, 0, 0, 1])));
    assert!(private(v6([0x0100, 0, 0, 0, 0xffff, 0xffff, 0xffff, 0xffff])));
    // documentation 2001:db8::/32
    assert!(private(v6([0x2001, 0x0db8, 1, 2, 3, 4, 5, 6])));
    // unique local fc00::/7
    assert!(private(v6([0xfc00, 0, 0, 0, 0, 0, 0, 1])));
    assert!(private(v6([0xfdff, 0, 0, 0, 0, 0, 0, 1])));
    // link-local fe80::/10 and site-local fec0::/10
    assert!(private(v6([0xfe80, 0, 0, 0, 0, 0, 0, 1])));
    assert!(private(v6([0xfec0, 0, 0, 0, 0, 0, 0, 1])));
    // an IPv4-mapped private address
    assert!(private(v6([0, 0, 0, 0, 0, 0xffff, 0x7f00, 0x0001])));
}

#[test]
fn v6_public_addresses_are_public() {
    // a global unicast address
    assert!(!private(v6([0x2606, 0x4700, 0x4700, 0, 0, 0, 0, 0x1111])));
    // just outside the discard prefix
    assert!(!private(v6([0x0100, 0, 0, 1, 0, 0, 0, 1])));
    // an IPv4-mapped public address
    assert!(!private(v6([0, 0, 0, 0, 0, 0xffff, 0x0101, 0x0101])));
    // multicast is not in the private set
    assert!(!private(v6([0xff02, 0, 0, 0, 0, 0, 0, 1])));
}

use vstd::prelude::*;

verus! {

/// An IPv4 address as four octets, most significant first.
#[derive(Debug, Clone, Copy, PartialEq, Eq, Structural)]
pub struct Ipv4Address {
    pub a: u8,
    pub b: u8,
    pub c: u8,
    pub d: u8,
}

/// An IPv6 address as eight 16-bit hextets, most significant first.
#[derive(Debug, Clone, Copy, PartialEq, Eq, Structural)]
pub struct Ipv6Address {
    pub s0: u16,
    pub s1: u16,
    pub s2: u16,
    pub s3: u16,
    pub s4: u16,
    pub s5: u16,
    pub s6: u16,
    pub s7: u16,
}

/// A concrete network address, the object of classification.
#[derive(Debug, Clone, Copy, PartialEq, Eq, Structural)]
pub enum IpAddress {
    V4(Ipv4Address),
    V6(Ipv6Address),
}

/// What classification decides of an address: publicly routable, or
/// private/reserved.
#[derive(Debug, Clone, Copy, PartialEq, Eq, Structural)]
pub enum AddressClass {
    Public,
    Private,
}

/// True of IPv4 addresses in a private, loopback, link-local, carrier-grade
/// NAT, documentation or otherwise reserved range.
pub open spec fn spec_is_private_v4(ip: Ipv4Address) -> bool {
    ||| ip.a == 0  // "this network"
    ||| ip.a == 10  // private
    ||| (ip.a == 100 && 64 <= ip.b && ip.b < 128)  // carrier-grade NAT
    ||| ip.a == 127  // loopback
    ||| (ip.a == 169 && ip.b == 254)  // link-local
    ||| (ip.a == 172 && 16 <= ip.b && ip.b < 32)  // private
    ||| (ip.a == 192 && ip.b == 0 && ip.c == 0)  // protocol assignments
    ||| (ip.a == 192 && ip.b == 0 && ip.c == 2)  // documentation
    ||| (ip.a == 192 && ip.b == 168)  // private
    ||| (ip.a == 198 && (ip.b == 18 || ip.b == 19))  // benchmarking
    ||| (ip.a == 198 && ip.b == 51 && ip.c == 100)  // documentation
    ||| (ip.a == 203 && ip.b == 0 && ip.c == 113)  // documentation
    ||| ip.a >= 240  // reserved and broadcast
}

/// True when the hextets form an IPv4-mapped IPv6 address (`::ffff:a.b.c.d`).
pub open spec fn spec_is_v4_mapped(ip: Ipv6Address) -> bool {
    ip.s0 == 0 && ip.s1 == 0 && ip.s2 == 0 && ip.s3 == 0 && ip.s4 == 0 && ip.s5 == 0xffff
}

/// The IPv4 address embedded in an IPv4-mapped IPv6 address.
pub open spec fn spec_embedded_v4(ip: Ipv6Address) -> Ipv4Address {
    Ipv4Address {
        a: (ip.s6 / 256) as u8,
        b: (ip.s6 % 256) as u8,
        c: (ip.s7 / 256) as u8,
        d: (ip.s7 % 256) as u8,
    }
}

/// True of IPv6 addresses in a loopback, link-local, unique-local,
/// site-local, discard, documentation or otherwise reserved range; an
/// IPv4-mapped address is judged by its embedded IPv4 address.
pub open spec fn spec_is_private_v6(ip: Ipv6Address) -> bool {
    ||| (ip.s0 == 0 && ip.s1 == 0 && ip.s2 == 0 && ip.s3 == 0 && ip.s4 == 0 && ip.s5 == 0
        && ip.s6 == 0 && ip.s7 <= 1)  // unspecified and loopback
    ||| (spec_is_v4_mapped(ip) && spec_is_private_v4(spec_embedded_v4(ip)))
    ||| (ip.s0 == 0x0100 && ip.s1 == 0 && ip.s2 == 0 && ip.s3 == 0)  // discard
    ||| (ip.s0 == 0x2001 && ip.s1 == 0x0db8)  // documentation
    ||| (0xfc00 <= ip.s0 && ip.s0 < 0xfe00)  // unique local
    ||| (0xfe80 <= ip.s0 && ip.s0 < 0xfec0)  // link-local
    ||| (0xfec0 <= ip.s0 && ip.s0 < 0xff00)  // site-local
}

/// True of addresses that the classifier reports as private/reserved.
pub open spec fn spec_is_private(ip: IpAddress) -> bool {
    match ip {
        IpAddress::V4(v4) => spec_is_private_v4(v4),
        IpAddress::V6(v6) => spec_is_private_v6(v6),
    }
}

/// The class of an address: `Private` exactly on the private/reserved
/// ranges, `Public` otherwise.
pub open spec fn spec_classify(ip: IpAddress) -> AddressClass {
    if spec_is_private(ip) {
        AddressClass::Private
    } else {
        AddressClass::Public
    }
}

fn is_private_v4(ip: &Ipv4Address) -> (r: bool)
    ensures
        r == spec_is_private_v4(*ip),
{
    false
    || ip.a == 0
    || ip.a == 10
    || (ip.a == 100 && 64 <= ip.b && ip.b < 128)
    || ip.a == 127
    || (ip.a == 169 && ip.b == 254)
    || (ip.a == 172 && 16 <= ip.b && ip.b < 32)
    || (ip.a == 192 && ip.b == 0 && ip.c == 0)
    || (ip.a == 192 && ip.b == 0 && ip.c == 2)
    || (ip.a == 192 && ip.b == 168)
    || (ip.a == 198 && (ip.b == 18 || ip.b == 19))
    || (ip.a == 198 && ip.b == 51 && ip.c == 100)
    || (ip.a == 203 && ip.b == 0 && ip.c == 113)
    || ip.a >= 240
}

fn is_private_v6(ip: &Ipv6Address) -> (r: bool)
    ensures
        r == spec_is_private_v6(*ip),
{
    let low_zero = ip.s0 == 0 && ip.s1 == 0 && ip.s2 == 0 && ip.s3 == 0 && ip.s4 == 0
        && ip.s5 == 0 && ip.s6 == 0 && ip.s7 <= 1;
    let v4_mapped = ip.s0 == 0 && ip.s1 == 0 && ip.s2 == 0 && ip.s3 == 0 && ip.s4 == 0
        && ip.s5 == 0xffff;
    let embedded_private = if v4_mapped {
        assert(ip.s6 / 256 < 256 && ip.s7 / 256 < 256) by (nonlinear_arith);
        let embedded = Ipv4Address {
            a: (ip.s6 / 256) as u8,
            b: (ip.s6 % 256) as u8,
            c: (ip.s7 / 256) as u8,
            d: (ip.s7 % 256) as u8,
        };
        is_private_v4(&embedded)
    } else {
        false
    };
    false
    || low_zero
    || embedded_private
    || (ip.s0 == 0x0100 && ip.s1 == 0 && ip.s2 == 0 && ip.s3 == 0)
    || (ip.s0 == 0x2001 && ip.s1 == 0x0db8)
    || (0xfc00 <= ip.s0 && ip.s0 < 0xfe00)
    || (0xfe80 <= ip.s0 && ip.s0 < 0xfec0)
    || (0xfec0 <= ip.s0 && ip.s0 < 0xff00)
}

/// Decides whether an address falls in a private/reserved range; a pure,
/// total function with no error case.
pub fn classify(ip: &IpAddress) -> (r: AddressClass)
    ensures
        r == spec_classify(*ip),
{
    let private = match ip {
        IpAddress::V4(v4) => is_private_v4(v4),
        IpAddress::V6(v6) => is_private_v6(v6),
    };
    if private {
        AddressClass::Private
    } else {
        AddressClass::Public
    }
}

} // verus!

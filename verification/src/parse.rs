use vstd::prelude::*;

use crate::ip::{IpAddress, Ipv4Address, Ipv6Address};

verus! {

/// True of the ASCII decimal digits.
pub open spec fn spec_is_dec_digit(c: u8) -> bool {
    48 <= c && c <= 57
}

/// True of the ASCII hexadecimal digits, either case.
pub open spec fn spec_is_hex_digit(c: u8) -> bool {
    ||| (48 <= c && c <= 57)
    ||| (97 <= c && c <= 102)
    ||| (65 <= c && c <= 70)
}

/// The value of a hexadecimal digit; zero on other bytes.
pub open spec fn spec_hex_val(c: u8) -> int {
    if 48 <= c && c <= 57 {
        c - 48
    } else if 97 <= c && c <= 102 {
        c - 87
    } else if 65 <= c && c <= 70 {
        c - 55
    } else {
        0
    }
}

/// A greedy run of decimal digits starting at `i`, at most `max_digits`
/// long, whose value never exceeds `bound`; yields the value and the
/// position after the run, or nothing when the run is empty, too long or
/// too large.
pub open spec fn spec_dec_run(
    s: Seq<u8>,
    i: int,
    acc: int,
    count: int,
    max_digits: int,
    bound: int,
) -> Option<(int, int)>
    decreases s.len() - i,
{
    if 0 <= i && i < s.len() && spec_is_dec_digit(s[i]) {
        if count >= max_digits {
            None
        } else {
            let v = acc * 10 + (s[i] - 48);
            if v > bound {
                None
            } else {
                spec_dec_run(s, i + 1, v, count + 1, max_digits, bound)
            }
        }
    } else {
        if count == 0 {
            None
        } else {
            Some((acc, i))
        }
    }
}

/// A greedy run of at most four hexadecimal digits starting at `i`; yields
/// the value and the position after the run.
pub open spec fn spec_hex_run(s: Seq<u8>, i: int, acc: int, count: int) -> Option<(int, int)>
    decreases s.len() - i,
{
    if 0 <= i && i < s.len() && spec_is_hex_digit(s[i]) {
        if count >= 4 {
            None
        } else {
            spec_hex_run(s, i + 1, acc * 16 + spec_hex_val(s[i]), count + 1)
        }
    } else {
        if count == 0 {
            None
        } else {
            Some((acc, i))
        }
    }
}

fn dec_run(s: &Vec<u8>, i: usize, acc: u32, count: u8, max_digits: u8, bound: u32) -> (r: Option<
    (u32, usize),
>)
    requires
        i <= s.len(),
        acc <= bound,
        bound <= 65535,
    ensures
        (r is Some) == (spec_dec_run(s@, i as int, acc as int, count as int, max_digits as int, bound as int) is Some),
        r matches Some(p) ==> {
            &&& spec_dec_run(s@, i as int, acc as int, count as int, max_digits as int, bound as int)
                == Some((p.0 as int, p.1 as int))
            &&& p.0 <= bound
            &&& p.1 <= s.len()
        },
    decreases s.len() - i,
{
    if i < s.len() && 48 <= s[i] && s[i] <= 57 {
        if count >= max_digits {
            None
        } else {
            let v = acc * 10 + (s[i] - 48) as u32;
            if v > bound {
                None
            } else {
                dec_run(s, i + 1, v, count + 1, max_digits, bound)
            }
        }
    } else {
        if count == 0 {
            None
        } else {
            Some((acc, i))
        }
    }
}

/// The exclusive upper bound on the accumulator after `count` hexadecimal
/// digits.
pub open spec fn spec_hex_cap(count: int) -> int {
    if count <= 0 {
        1
    } else if count == 1 {
        16
    } else if count == 2 {
        256
    } else if count == 3 {
        4096
    } else {
        65536
    }
}

fn hex_run(s: &Vec<u8>, i: usize, acc: u32, count: u8) -> (r: Option<(u32, usize)>)
    requires
        i <= s.len(),
        acc < spec_hex_cap(count as int),
    ensures
        (r is Some) == (spec_hex_run(s@, i as int, acc as int, count as int) is Some),
        r matches Some(p) ==> {
            &&& spec_hex_run(s@, i as int, acc as int, count as int) == Some((p.0 as int, p.1 as int))
            &&& p.0 <= 0xffff
            &&& p.1 <= s.len()
        },
    decreases s.len() - i,
{
    if i < s.len() && (48 <= s[i] && s[i] <= 57 || 97 <= s[i] && s[i] <= 102 || 65 <= s[i]
        && s[i] <= 70) {
        if count >= 4 {
            None
        } else {
            let c = s[i];
            let digit: u32 = if 48 <= c && c <= 57 {
                (c - 48) as u32
            } else if 97 <= c && c <= 102 {
                (c - 87) as u32
            } else {
                (c - 55) as u32
            };
            hex_run(s, i + 1, acc * 16 + digit, count + 1)
        }
    } else {
        if count == 0 {
            None
        } else {
            Some((acc, i))
        }
    }
}

/// A greedy run of at most five decimal digits bounded by the largest
/// port number, yielding the port and the position after the run.
pub fn dec_run_u16(s: &Vec<u8>, i: usize) -> (r: Option<(u16, usize)>)
    requires
        i <= s.len(),
    ensures
        (r is Some) == (spec_dec_run(s@, i as int, 0, 0, 5, 65535) is Some),
        r matches Some(p) ==> {
            &&& spec_dec_run(s@, i as int, 0, 0, 5, 65535) == Some((p.0 as int, p.1 as int))
            &&& p.1 <= s.len()
        },
{
    match dec_run(s, i, 0, 0, 5, 65535) {
        None => None,
        Some((v, j)) => Some((v as u16, j)),
    }
}

/// A dotted-quad IPv4 literal: four decimal octets separated by dots,
/// spanning the whole input.
pub open spec fn spec_parse_ipv4(s: Seq<u8>) -> Option<Ipv4Address> {
    match spec_dec_run(s, 0, 0, 0, 3, 255) {
        None => None,
        Some((a, i1)) => if i1 < s.len() && s[i1] == 46 {
            match spec_dec_run(s, i1 + 1, 0, 0, 3, 255) {
                None => None,
                Some((b, i2)) => if i2 < s.len() && s[i2] == 46 {
                    match spec_dec_run(s, i2 + 1, 0, 0, 3, 255) {
                        None => None,
                        Some((c, i3)) => if i3 < s.len() && s[i3] == 46 {
                            match spec_dec_run(s, i3 + 1, 0, 0, 3, 255) {
                                None => None,
                                Some((d, i4)) => if i4 == s.len() {
                                    Some(
                                        Ipv4Address {
                                            a: a as u8,
                                            b: b as u8,
                                            c: c as u8,
                                            d: d as u8,
                                        },
                                    )
                                } else {
                                    None
                                },
                            }
                        } else {
                            None
                        },
                    }
                } else {
                    None
                },
            }
        } else {
            None
        },
    }
}

/// Parses a dotted-quad IPv4 literal.
pub fn parse_ipv4(s: &Vec<u8>) -> (r: Option<Ipv4Address>)
    ensures
        r == spec_parse_ipv4(s@),
{
    match dec_run(s, 0, 0, 0, 3, 255) {
        None => None,
        Some((a, i1)) => if i1 < s.len() && s[i1] == 46 {
            match dec_run(s, i1 + 1, 0, 0, 3, 255) {
                None => None,
                Some((b, i2)) => if i2 < s.len() && s[i2] == 46 {
                    match dec_run(s, i2 + 1, 0, 0, 3, 255) {
                        None => None,
                        Some((c, i3)) => if i3 < s.len() && s[i3] == 46 {
                            match dec_run(s, i3 + 1, 0, 0, 3, 255) {
                                None => None,
                                Some((d, i4)) => if i4 == s.len() {
                                    Some(
                                        Ipv4Address {
                                            a: a as u8,
                                            b: b as u8,
                                            c: c as u8,
                                            d: d as u8,
                                        },
                                    )
                                } else {
                                    None
                                },
                            }
                        } else {
                            None
                        },
                    }
                } else {
                    None
                },
            }
        } else {
            None
        },
    }
}

/// Hextet groups separated by single colons, running to the end of the
/// input; rejects empty groups, trailing colons and a second `::`. The
/// fuel caps the group count; anything deeper is invalid in an address.
pub open spec fn spec_parse_groups(s: Seq<u8>, i: int, fuel: nat) -> Option<Seq<u16>>
    decreases fuel,
{
    if fuel == 0 {
        None
    } else {
        match spec_hex_run(s, i, 0, 0) {
            None => None,
            Some((g, j)) => if j == s.len() {
                Some(seq![g as u16])
            } else if j < s.len() && s[j] == 58 && j + 1 < s.len() && s[j + 1] != 58 {
                match spec_parse_groups(s, j + 1, (fuel - 1) as nat) {
                    None => None,
                    Some(rest) => Some(seq![g as u16] + rest),
                }
            } else {
                None
            },
        }
    }
}

/// Hextet groups up to either the end of the input (no compression) or a
/// `::` marker, with the groups parsed after the marker.
pub open spec fn spec_parse_head(s: Seq<u8>, i: int, fuel: nat) -> Option<
    (Seq<u16>, bool, Seq<u16>),
>
    decreases fuel,
{
    if fuel == 0 {
        None
    } else {
        match spec_hex_run(s, i, 0, 0) {
            None => None,
            Some((g, j)) => if j == s.len() {
                Some((seq![g as u16], false, Seq::empty()))
            } else if j < s.len() && s[j] == 58 {
                if j + 1 < s.len() && s[j + 1] == 58 {
                    if j + 2 == s.len() {
                        Some((seq![g as u16], true, Seq::empty()))
                    } else {
                        match spec_parse_groups(s, j + 2, 8) {
                            None => None,
                            Some(after) => Some((seq![g as u16], true, after)),
                        }
                    }
                } else if j + 1 < s.len() {
                    match spec_parse_head(s, j + 1, (fuel - 1) as nat) {
                        None => None,
                        Some((rest, dc, after)) => Some((seq![g as u16] + rest, dc, after)),
                    }
                } else {
                    None
                }
            } else {
                None
            },
        }
    }
}

/// The address formed by eight hextet groups in order.
pub open spec fn spec_from_groups(g: Seq<u16>) -> Ipv6Address {
    Ipv6Address {
        s0: g[0],
        s1: g[1],
        s2: g[2],
        s3: g[3],
        s4: g[4],
        s5: g[5],
        s6: g[6],
        s7: g[7],
    }
}

/// The address formed by the groups before a `::`, a zero fill, and the
/// groups after it.
pub open spec fn spec_expand(before: Seq<u16>, after: Seq<u16>) -> Ipv6Address {
    spec_from_groups(
        before + Seq::new((8 - before.len() - after.len()) as nat, |k: int| 0u16) + after,
    )
}

/// An IPv6 literal (without brackets): eight colon-separated hextet groups,
/// or fewer groups with a single `::` standing for a zero fill.
pub open spec fn spec_parse_ipv6(s: Seq<u8>) -> Option<Ipv6Address> {
    if s.len() >= 2 && s[0] == 58 && s[1] == 58 {
        if s.len() == 2 {
            Some(spec_expand(Seq::empty(), Seq::empty()))
        } else {
            match spec_parse_groups(s, 2, 8) {
                None => None,
                Some(after) => if after.len() <= 7 {
                    Some(spec_expand(Seq::empty(), after))
                } else {
                    None
                },
            }
        }
    } else {
        match spec_parse_head(s, 0, 8) {
            None => None,
            Some((before, dc, after)) => if dc {
                if before.len() + after.len() <= 7 {
                    Some(spec_expand(before, after))
                } else {
                    None
                }
            } else {
                if before.len() == 8 {
                    Some(spec_from_groups(before))
                } else {
                    None
                }
            },
        }
    }
}

fn cons_group(g: u16, rest: Vec<u16>) -> (v: Vec<u16>)
    ensures
        v@ == seq![g] + rest@,
{
    let mut v: Vec<u16> = Vec::new();
    v.push(g);
    let mut k: usize = 0;
    while k < rest.len()
        invariant
            k <= rest.len(),
            v@ == seq![g] + rest@.subrange(0, k as int),
        decreases rest.len() - k,
    {
        v.push(rest[k]);
        k = k + 1;
        proof {
            assert(v@ =~= seq![g] + rest@.subrange(0, k as int));
        }
    }
    proof {
        assert(rest@.subrange(0, rest@.len() as int) =~= rest@);
    }
    v
}

fn parse_groups(s: &Vec<u8>, i: usize, fuel: u8) -> (r: Option<Vec<u16>>)
    requires
        i <= s.len(),
    ensures
        (r is Some) == (spec_parse_groups(s@, i as int, fuel as nat) is Some),
        r matches Some(v) ==> spec_parse_groups(s@, i as int, fuel as nat) == Some(v@),
    decreases fuel,
{
    if fuel == 0 {
        return None;
    }
    match hex_run(s, i, 0, 0) {
        None => None,
        Some((g, j)) => {
            if j == s.len() {
                let mut v: Vec<u16> = Vec::new();
                v.push(g as u16);
                proof {
                    assert(v@ =~= seq![g as u16]);
                }
                Some(v)
            } else if s[j] == 58 && j + 1 < s.len() && s[j + 1] != 58 {
                match parse_groups(s, j + 1, fuel - 1) {
                    None => None,
                    Some(rest) => Some(cons_group(g as u16, rest)),
                }
            } else {
                None
            }
        },
    }
}

fn parse_head(s: &Vec<u8>, i: usize, fuel: u8) -> (r: Option<(Vec<u16>, bool, Vec<u16>)>)
    requires
        i <= s.len(),
    ensures
        (r is Some) == (spec_parse_head(s@, i as int, fuel as nat) is Some),
        r matches Some(t) ==> spec_parse_head(s@, i as int, fuel as nat) == Some(
            (t.0@, t.1, t.2@),
        ),
    decreases fuel,
{
    if fuel == 0 {
        return None;
    }
    match hex_run(s, i, 0, 0) {
        None => None,
        Some((g, j)) => {
            if j == s.len() {
                let mut v: Vec<u16> = Vec::new();
                v.push(g as u16);
                proof {
                    assert(v@ =~= seq![g as u16]);
                }
                Some((v, false, Vec::new()))
            } else if s[j] == 58 {
                if j + 1 < s.len() && s[j + 1] == 58 {
                    if j + 2 == s.len() {
                        let mut v: Vec<u16> = Vec::new();
                        v.push(g as u16);
                        proof {
                            assert(v@ =~= seq![g as u16]);
                        }
                        Some((v, true, Vec::new()))
                    } else {
                        match parse_groups(s, j + 2, 8) {
                            None => None,
                            Some(after) => {
                                let mut v: Vec<u16> = Vec::new();
                                v.push(g as u16);
                                proof {
                                    assert(v@ =~= seq![g as u16]);
                                }
                                Some((v, true, after))
                            },
                        }
                    }
                } else if j + 1 < s.len() {
                    match parse_head(s, j + 1, fuel - 1) {
                        None => None,
                        Some((rest, dc, after)) => Some((cons_group(g as u16, rest), dc, after)),
                    }
                } else {
                    None
                }
            } else {
                None
            }
        },
    }
}

fn from_groups(g: &Vec<u16>) -> (r: Ipv6Address)
    requires
        g@.len() == 8,
    ensures
        r == spec_from_groups(g@),
{
    Ipv6Address {
        s0: g[0],
        s1: g[1],
        s2: g[2],
        s3: g[3],
        s4: g[4],
        s5: g[5],
        s6: g[6],
        s7: g[7],
    }
}

fn expand(before: &Vec<u16>, after: &Vec<u16>) -> (r: Ipv6Address)
    requires
        before@.len() + after@.len() <= 7,
    ensures
        r == spec_expand(before@, after@),
{
    let fill: usize = 8 - before.len() - after.len();
    let mut groups: Vec<u16> = Vec::new();
    let mut k: usize = 0;
    while k < before.len()
        invariant
            k <= before.len(),
            groups@ == before@.subrange(0, k as int),
        decreases before.len() - k,
    {
        groups.push(before[k]);
        k = k + 1;
        proof {
            assert(groups@ =~= before@.subrange(0, k as int));
        }
    }
    proof {
        assert(before@.subrange(0, before@.len() as int) =~= before@);
    }
    let mut z: usize = 0;
    while z < fill
        invariant
            z <= fill,
            groups@ == before@ + Seq::new(z as nat, |k: int| 0u16),
        decreases fill - z,
    {
        groups.push(0);
        z = z + 1;
        proof {
            assert(groups@ =~= before@ + Seq::new(z as nat, |k: int| 0u16));
        }
    }
    let mut m: usize = 0;
    while m < after.len()
        invariant
            m <= after.len(),
            groups@ == before@ + Seq::new(fill as nat, |k: int| 0u16) + after@.subrange(
                0,
                m as int,
            ),
        decreases after.len() - m,
    {
        groups.push(after[m]);
        m = m + 1;
        proof {
            assert(groups@ =~= before@ + Seq::new(fill as nat, |k: int| 0u16) + after@.subrange(
                0,
                m as int,
            ));
        }
    }
    proof {
        assert(after@.subrange(0, after@.len() as int) =~= after@);
        assert(groups@ == before@ + Seq::new(fill as nat, |k: int| 0u16) + after@);
    }
    from_groups(&groups)
}

/// Parses an IPv6 literal (without brackets).
pub fn parse_ipv6(s: &Vec<u8>) -> (r: Option<Ipv6Address>)
    ensures
        r == spec_parse_ipv6(s@),
{
    if s.len() >= 2 && s[0] == 58 && s[1] == 58 {
        if s.len() == 2 {
            let empty_before: Vec<u16> = Vec::new();
            let empty_after: Vec<u16> = Vec::new();
            Some(expand(&empty_before, &empty_after))
        } else {
            match parse_groups(s, 2, 8) {
                None => None,
                Some(after) => if after.len() <= 7 {
                    let empty_before: Vec<u16> = Vec::new();
                    Some(expand(&empty_before, &after))
                } else {
                    None
                },
            }
        }
    } else {
        match parse_head(s, 0, 8) {
            None => None,
            Some((before, dc, after)) => if dc {
                if before.len() <= 7 && after.len() <= 7 - before.len() {
                    Some(expand(&before, &after))
                } else {
                    None
                }
            } else {
                if before.len() == 8 {
                    Some(from_groups(&before))
                } else {
                    None
                }
            },
        }
    }
}

/// A direct IP literal: a dotted-quad IPv4 address or an IPv6 address.
pub open spec fn spec_parse_ip_literal(s: Seq<u8>) -> Option<IpAddress> {
    match spec_parse_ipv4(s) {
        Some(v4) => Some(IpAddress::V4(v4)),
        None => match spec_parse_ipv6(s) {
            Some(v6) => Some(IpAddress::V6(v6)),
            None => None,
        },
    }
}

/// Parses a host string as a direct IP literal; a host that is neither an
/// IPv4 nor an IPv6 literal yields nothing and must go through name
/// resolution instead.
pub fn parse_ip_literal(s: &Vec<u8>) -> (r: Option<IpAddress>)
    ensures
        r == spec_parse_ip_literal(s@),
{
    match parse_ipv4(s) {
        Some(v4) => Some(IpAddress::V4(v4)),
        None => match parse_ipv6(s) {
            Some(v6) => Some(IpAddress::V6(v6)),
            None => None,
        },
    }
}

/// A whole-input decimal port number.
pub open spec fn spec_parse_port(s: Seq<u8>) -> Option<u16> {
    match spec_dec_run(s, 0, 0, 0, 5, 65535) {
        None => None,
        Some((v, j)) => if j == s.len() {
            Some(v as u16)
        } else {
            None
        },
    }
}

/// Parses a decimal port number spanning the whole input.
pub fn parse_port(s: &Vec<u8>) -> (r: Option<u16>)
    ensures
        r == spec_parse_port(s@),
{
    match dec_run(s, 0, 0, 0, 5, 65535) {
        None => None,
        Some((v, j)) => if j == s.len() {
            Some(v as u16)
        } else {
            None
        },
    }
}

/// True when `a` and `b` hold the same bytes.
pub fn bytes_eq(a: &Vec<u8>, b: &Vec<u8>) -> (r: bool)
    ensures
        r == (a@ == b@),
{
    if a.len() != b.len() {
        proof {
            assert(a@ != b@);
        }
        return false;
    }
    let mut k: usize = 0;
    while k < a.len()
        invariant
            k <= a.len(),
            a@.len() == b@.len(),
            forall|j: int| 0 <= j < k ==> a@[j] == b@[j],
        decreases a.len() - k,
    {
        if a[k] != b[k] {
            return false;
        }
        k = k + 1;
    }
    proof {
        assert(a@ =~= b@);
    }
    true
}

/// True when `suffix` is a suffix of `s`.
pub open spec fn spec_has_suffix(s: Seq<u8>, suffix: Seq<u8>) -> bool {
    s.len() >= suffix.len() && s.subrange(s.len() - suffix.len(), s.len() as int) == suffix
}

/// Decides whether `suffix` ends `s`.
pub fn has_suffix(s: &Vec<u8>, suffix: &Vec<u8>) -> (r: bool)
    ensures
        r == spec_has_suffix(s@, suffix@),
{
    if s.len() < suffix.len() {
        return false;
    }
    let off: usize = s.len() - suffix.len();
    let mut k: usize = 0;
    while k < suffix.len()
        invariant
            s@.len() >= suffix@.len(),
            s@.len() <= usize::MAX,
            off == s@.len() - suffix@.len(),
            k <= suffix.len(),
            forall|j: int| 0 <= j < k ==> s@[off + j] == suffix@[j],
        decreases suffix.len() - k,
    {
        proof {
            assert(off + k < s@.len());
        }
        if s[off + k] != suffix[k] {
            proof {
                assert(s@.subrange(s@.len() - suffix@.len(), s@.len() as int)[k as int]
                    == s@[off + k]);
            }
            return false;
        }
        k = k + 1;
    }
    proof {
        assert(s@.subrange(s@.len() - suffix@.len(), s@.len() as int) =~= suffix@);
    }
    true
}

} // verus!

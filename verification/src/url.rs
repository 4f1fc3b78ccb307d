use vstd::prelude::*;

use crate::allow::{HostPattern, OriginPattern, Scheme, SchemePattern};
use crate::parse::{bytes_eq, spec_dec_run};

verus! {

/// The reserved host marker by which a component addresses its own
/// application.
pub open spec fn spec_self_host() -> Seq<u8> {
    seq![115u8, 101u8, 108u8, 102u8]
}

/// Builds the reserved self-marker host, the bytes of `self`.
pub fn self_host() -> (v: Vec<u8>)
    ensures
        v@ == spec_self_host(),
{
    let mut v: Vec<u8> = Vec::new();
    v.push(115);
    v.push(101);
    v.push(108);
    v.push(102);
    proof {
        assert(v@ =~= spec_self_host());
    }
    v
}

/// The first position at or after `i` holding byte `b`, or the length when
/// there is none.
pub open spec fn spec_find_byte(s: Seq<u8>, i: int, b: u8) -> int
    decreases s.len() - i,
{
    if 0 <= i && i < s.len() {
        if s[i] == b {
            i
        } else {
            spec_find_byte(s, i + 1, b)
        }
    } else {
        s.len() as int
    }
}

pub fn find_byte(s: &Vec<u8>, i: usize, b: u8) -> (r: usize)
    requires
        i <= s.len(),
    ensures
        r == spec_find_byte(s@, i as int, b),
        i <= r <= s.len(),
        r < s.len() ==> s@[r as int] == b,
    decreases s.len() - i,
{
    if i < s.len() {
        if s[i] == b {
            i
        } else {
            find_byte(s, i + 1, b)
        }
    } else {
        s.len()
    }
}

/// The first position at or after `i` holding a colon or a slash — the end
/// of an unbracketed host — or the length when there is none.
pub open spec fn spec_find_host_end(s: Seq<u8>, i: int) -> int
    decreases s.len() - i,
{
    if 0 <= i && i < s.len() {
        if s[i] == 58 || s[i] == 47 {
            i
        } else {
            spec_find_host_end(s, i + 1)
        }
    } else {
        s.len() as int
    }
}

pub fn find_host_end(s: &Vec<u8>, i: usize) -> (r: usize)
    requires
        i <= s.len(),
    ensures
        r == spec_find_host_end(s@, i as int),
        i <= r <= s.len(),
        r < s.len() ==> (s@[r as int] == 58 || s@[r as int] == 47),
    decreases s.len() - i,
{
    if i < s.len() {
        if s[i] == 58 || s[i] == 47 {
            i
        } else {
            find_host_end(s, i + 1)
        }
    } else {
        s.len()
    }
}

/// Copies the byte range `[from, to)` out of `s`.
pub fn copy_range(s: &Vec<u8>, from: usize, to: usize) -> (v: Vec<u8>)
    requires
        from <= to <= s.len(),
    ensures
        v@ == s@.subrange(from as int, to as int),
{
    let mut v: Vec<u8> = Vec::new();
    let mut k: usize = from;
    while k < to
        invariant
            from <= k <= to <= s@.len(),
            v@ == s@.subrange(from as int, k as int),
        decreases to - k,
    {
        v.push(s[k]);
        k = k + 1;
        proof {
            assert(v@ =~= s@.subrange(from as int, k as int));
        }
    }
    v
}

/// Copies the bytes of `s` from `from` to the end.
pub fn tail_from(s: &Vec<u8>, from: usize) -> (v: Vec<u8>)
    requires
        from <= s.len(),
    ensures
        v@ == s@.subrange(from as int, s@.len() as int),
{
    copy_range(s, from, s.len())
}

/// A whole-tail decimal port number starting at `i`.
pub open spec fn spec_port_from(s: Seq<u8>, i: int) -> Option<u16> {
    match spec_dec_run(s, i, 0, 0, 5, 65535) {
        None => None,
        Some((v, j)) => if j == s.len() {
            Some(v as u16)
        } else {
            None
        },
    }
}

fn port_from(s: &Vec<u8>, i: usize) -> (r: Option<u16>)
    requires
        i <= s.len(),
    ensures
        r == spec_port_from(s@, i as int),
{
    match crate::parse::dec_run_u16(s, i) {
        None => None,
        Some((v, j)) => if j == s.len() {
            Some(v)
        } else {
            None
        },
    }
}

/// The scheme part of a pattern, with the position after `://`: wildcard,
/// `https` or `http`.
pub open spec fn spec_strip_scheme_pattern(s: Seq<u8>) -> Option<(SchemePattern, int)> {
    if s.len() >= 8 && s[0] == 104 && s[1] == 116 && s[2] == 116 && s[3] == 112 && s[4] == 115
        && s[5] == 58 && s[6] == 47 && s[7] == 47 {
        Some((SchemePattern::Exact(Scheme::Https), 8))
    } else if s.len() >= 7 && s[0] == 104 && s[1] == 116 && s[2] == 116 && s[3] == 112 && s[4] == 58
        && s[5] == 47 && s[6] == 47 {
        Some((SchemePattern::Exact(Scheme::Http), 7))
    } else if s.len() >= 4 && s[0] == 42 && s[1] == 58 && s[2] == 47 && s[3] == 47 {
        Some((SchemePattern::AnyScheme, 4))
    } else {
        None
    }
}

/// The scheme of an absolute target, with the position after `://`.
pub open spec fn spec_strip_scheme(s: Seq<u8>) -> Option<(Scheme, int)> {
    if s.len() >= 8 && s[0] == 104 && s[1] == 116 && s[2] == 116 && s[3] == 112 && s[4] == 115
        && s[5] == 58 && s[6] == 47 && s[7] == 47 {
        Some((Scheme::Https, 8))
    } else if s.len() >= 7 && s[0] == 104 && s[1] == 116 && s[2] == 116 && s[3] == 112 && s[4] == 58
        && s[5] == 47 && s[6] == 47 {
        Some((Scheme::Http, 7))
    } else {
        None
    }
}

/// The host part of an origin pattern, at the spec level.
pub enum HostPatternView {
    AnyHost,
    Literal(Seq<u8>),
    DomainSuffix(Seq<u8>),
    SelfHost,
}

/// An origin pattern, at the spec level.
pub struct OriginPatternView {
    pub scheme: SchemePattern,
    pub host: HostPatternView,
    pub port: Option<u16>,
}

impl View for HostPattern {
    type V = HostPatternView;

    open spec fn view(&self) -> HostPatternView {
        match self {
            HostPattern::AnyHost => HostPatternView::AnyHost,
            HostPattern::Literal(h) => HostPatternView::Literal(h@),
            HostPattern::DomainSuffix(sfx) => HostPatternView::DomainSuffix(sfx@),
            HostPattern::SelfHost => HostPatternView::SelfHost,
        }
    }
}

impl View for OriginPattern {
    type V = OriginPatternView;

    open spec fn view(&self) -> OriginPatternView {
        OriginPatternView { scheme: self.scheme, host: self.host@, port: self.port }
    }
}

/// The host and port parts of a pattern, starting at `i`: a bare or
/// dotted wildcard, a bracketed literal, the self-marker, or a literal
/// host, each with an optional port and no path.
pub open spec fn spec_parse_pattern_tail(s: Seq<u8>, i: int) -> Option<
    (HostPatternView, Option<u16>),
> {
    if i >= s.len() {
        None
    } else if s[i] == 42 {
        if i + 1 == s.len() {
            Some((HostPatternView::AnyHost, None))
        } else if s[i + 1] == 58 {
            match spec_port_from(s, i + 2) {
                Some(p) => Some((HostPatternView::AnyHost, Some(p))),
                None => None,
            }
        } else if s[i + 1] == 46 {
            let he = spec_find_host_end(s, i + 1);
            if he < s.len() && s[he] == 47 {
                None
            } else if he - (i + 1) >= 2 {
                let sfx = s.subrange(i + 1, he);
                if he == s.len() {
                    Some((HostPatternView::DomainSuffix(sfx), None))
                } else {
                    match spec_port_from(s, he + 1) {
                        Some(p) => Some((HostPatternView::DomainSuffix(sfx), Some(p))),
                        None => None,
                    }
                }
            } else {
                None
            }
        } else {
            None
        }
    } else if s[i] == 91 {
        let rb = spec_find_byte(s, i, 93);
        if rb < s.len() && rb > i + 1 {
            let inner = s.subrange(i + 1, rb);
            if rb + 1 == s.len() {
                Some((HostPatternView::Literal(inner), None))
            } else if s[rb + 1] == 58 {
                match spec_port_from(s, rb + 2) {
                    Some(p) => Some((HostPatternView::Literal(inner), Some(p))),
                    None => None,
                }
            } else {
                None
            }
        } else {
            None
        }
    } else {
        let he = spec_find_host_end(s, i);
        if he < s.len() && s[he] == 47 {
            None
        } else if he > i {
            let h = s.subrange(i, he);
            let hp = if h == spec_self_host() {
                HostPatternView::SelfHost
            } else {
                HostPatternView::Literal(h)
            };
            if he == s.len() {
                Some((hp, None))
            } else {
                match spec_port_from(s, he + 1) {
                    Some(p) => Some((hp, Some(p))),
                    None => None,
                }
            }
        } else {
            None
        }
    }
}

/// An origin pattern as written in configuration:
/// `scheme://host[:port]`, with `*` for any scheme, `*` or `*.suffix`
/// wildcards or the self-marker for the host, and no path.
pub open spec fn spec_parse_pattern(s: Seq<u8>) -> Option<OriginPatternView> {
    match spec_strip_scheme_pattern(s) {
        None => None,
        Some((sp, i)) => match spec_parse_pattern_tail(s, i) {
            None => None,
            Some((hp, port)) => Some(OriginPatternView { scheme: sp, host: hp, port }),
        },
    }
}

fn parse_pattern_tail(s: &Vec<u8>, i: usize) -> (r: Option<(HostPattern, Option<u16>)>)
    requires
        i <= s.len(),
    ensures
        (r is Some) == (spec_parse_pattern_tail(s@, i as int) is Some),
        r matches Some(t) ==> spec_parse_pattern_tail(s@, i as int) == Some((t.0@, t.1)),
{
    if i >= s.len() {
        None
    } else if s[i] == 42 {
        if i + 1 == s.len() {
            Some((HostPattern::AnyHost, None))
        } else if s[i + 1] == 58 {
            match port_from(s, i + 2) {
                Some(p) => Some((HostPattern::AnyHost, Some(p))),
                None => None,
            }
        } else if s[i + 1] == 46 {
            let he = find_host_end(s, i + 1);
            if he < s.len() && s[he] == 47 {
                None
            } else if he - (i + 1) >= 2 {
                let sfx = copy_range(s, i + 1, he);
                if he == s.len() {
                    Some((HostPattern::DomainSuffix(sfx), None))
                } else {
                    match port_from(s, he + 1) {
                        Some(p) => Some((HostPattern::DomainSuffix(sfx), Some(p))),
                        None => None,
                    }
                }
            } else {
                None
            }
        } else {
            None
        }
    } else if s[i] == 91 {
        let rb = find_byte(s, i, 93);
        if rb < s.len() && rb > i + 1 {
            let inner = copy_range(s, i + 1, rb);
            if rb + 1 == s.len() {
                Some((HostPattern::Literal(inner), None))
            } else if s[rb + 1] == 58 {
                match port_from(s, rb + 2) {
                    Some(p) => Some((HostPattern::Literal(inner), Some(p))),
                    None => None,
                }
            } else {
                None
            }
        } else {
            None
        }
    } else {
        let he = find_host_end(s, i);
        if he < s.len() && s[he] == 47 {
            None
        } else if he > i {
            let h = copy_range(s, i, he);
            let marker = self_host();
            let hp = if bytes_eq(&h, &marker) {
                HostPattern::SelfHost
            } else {
                HostPattern::Literal(h)
            };
            if he == s.len() {
                Some((hp, None))
            } else {
                match port_from(s, he + 1) {
                    Some(p) => Some((hp, Some(p))),
                    None => None,
                }
            }
        } else {
            None
        }
    }
}

/// Parses one declared origin pattern.
pub fn parse_pattern(s: &Vec<u8>) -> (r: Option<OriginPattern>)
    ensures
        (r is Some) == (spec_parse_pattern(s@) is Some),
        r matches Some(p) ==> spec_parse_pattern(s@) == Some(p@),
{
    let stripped: Option<(SchemePattern, usize)> = if s.len() >= 8 && s[0] == 104 && s[1] == 116
        && s[2] == 116 && s[3] == 112 && s[4] == 115 && s[5] == 58 && s[6] == 47 && s[7] == 47 {
        Some((SchemePattern::Exact(Scheme::Https), 8))
    } else if s.len() >= 7 && s[0] == 104 && s[1] == 116 && s[2] == 116 && s[3] == 112 && s[4] == 58
        && s[5] == 47 && s[6] == 47 {
        Some((SchemePattern::Exact(Scheme::Http), 7))
    } else if s.len() >= 4 && s[0] == 42 && s[1] == 58 && s[2] == 47 && s[3] == 47 {
        Some((SchemePattern::AnyScheme, 4))
    } else {
        None
    };
    match stripped {
        None => None,
        Some((sp, i)) => match parse_pattern_tail(s, i) {
            None => None,
            Some((hp, port)) => Some(OriginPattern { scheme: sp, host: hp, port }),
        },
    }
}

/// Parses a whole declared pattern set; yields nothing as soon as one
/// entry is invalid.
pub fn parse_patterns(texts: &Vec<Vec<u8>>) -> (r: Option<Vec<OriginPattern>>)
    ensures
        (r is Some) == (forall|i: int|
            0 <= i < texts@.len() ==> spec_parse_pattern(texts@[i]@) is Some),
        r matches Some(ps) ==> {
            &&& ps@.len() == texts@.len()
            &&& forall|i: int|
                0 <= i < texts@.len() ==> spec_parse_pattern(texts@[i]@) == Some(ps@[i]@)
        },
{
    let mut out: Vec<OriginPattern> = Vec::new();
    let mut k: usize = 0;
    while k < texts.len()
        invariant
            k <= texts@.len(),
            out@.len() == k,
            forall|i: int| 0 <= i < k ==> spec_parse_pattern(texts@[i]@) is Some,
            forall|i: int| 0 <= i < k ==> spec_parse_pattern(texts@[i]@) == Some(out@[i]@),
        decreases texts.len() - k,
    {
        match parse_pattern(&texts[k]) {
            None => {
                return None;
            },
            Some(p) => {
                out.push(p);
            },
        }
        k = k + 1;
    }
    Some(out)
}

} // verus!

use vstd::prelude::*;

use crate::allow::Scheme;
use crate::parse::{bytes_eq, dec_run_u16, spec_dec_run};
use crate::url::{
    self_host, spec_find_byte, spec_find_host_end, spec_self_host, spec_strip_scheme,
};

verus! {

/// Per-call timeout configuration, in milliseconds.
#[derive(Debug, Clone, Copy, PartialEq, Eq, Structural)]
pub struct TimeoutConfig {
    pub connect_ms: u64,
    pub first_byte_ms: u64,
    pub between_bytes_ms: u64,
}

/// One HTTP header field.
#[derive(Debug, Clone, PartialEq, Eq)]
pub struct HeaderField {
    pub name: Vec<u8>,
    pub value: Vec<u8>,
}

/// A request target: an absolute URL, or a self-relative path addressed to
/// the component's own application.
#[derive(Debug, Clone, PartialEq, Eq)]
pub enum Target {
    Absolute { scheme: Scheme, host: Vec<u8>, port: Option<u16>, path: Vec<u8> },
    SelfRelative { path: Vec<u8> },
}

/// A request target, at the spec level.
pub enum TargetView {
    Absolute { scheme: Scheme, host: Seq<u8>, port: Option<u16>, path: Seq<u8> },
    SelfRelative { path: Seq<u8> },
}

impl View for Target {
    type V = TargetView;

    open spec fn view(&self) -> TargetView {
        match self {
            Target::Absolute { scheme, host, port, path } => TargetView::Absolute {
                scheme: *scheme,
                host: host@,
                port: *port,
                path: path@,
            },
            Target::SelfRelative { path } => TargetView::SelfRelative { path: path@ },
        }
    }
}

/// True of targets that designate the component's own application: a path
/// with no authority, or an absolute target whose host is the reserved
/// self-marker.
pub open spec fn spec_is_self_target(t: TargetView) -> bool {
    match t {
        TargetView::SelfRelative { .. } => true,
        TargetView::Absolute { host, .. } => host == spec_self_host(),
    }
}

/// The path of a target.
pub open spec fn spec_target_path(t: TargetView) -> Seq<u8> {
    match t {
        TargetView::Absolute { path, .. } => path,
        TargetView::SelfRelative { path } => path,
    }
}

/// Decides whether a target is a self-request.
pub fn is_self_target(t: &Target) -> (r: bool)
    ensures
        r == spec_is_self_target(t@),
{
    match t {
        Target::SelfRelative { .. } => true,
        Target::Absolute { host, .. } => {
            let marker = self_host();
            bytes_eq(host, &marker)
        },
    }
}

/// The authority and path of an absolute target after its scheme: a
/// bracketed or plain host, an optional port, and the path (`/` when
/// absent).
pub open spec fn spec_parse_target_tail(
    s: Seq<u8>,
    j: int,
    scheme: Scheme,
    host: Seq<u8>,
) -> Option<TargetView> {
    if j == s.len() {
        Some(TargetView::Absolute { scheme, host, port: None, path: seq![47u8] })
    } else if 0 <= j < s.len() && s[j] == 47 {
        Some(
            TargetView::Absolute { scheme, host, port: None, path: s.subrange(j, s.len() as int) },
        )
    } else if 0 <= j < s.len() && s[j] == 58 {
        match spec_dec_run(s, j + 1, 0, 0, 5, 65535) {
            None => None,
            Some((v, k)) => if k == s.len() {
                Some(
                    TargetView::Absolute { scheme, host, port: Some(v as u16), path: seq![47u8] },
                )
            } else if s[k] == 47 {
                Some(
                    TargetView::Absolute {
                        scheme,
                        host,
                        port: Some(v as u16),
                        path: s.subrange(k, s.len() as int),
                    },
                )
            } else {
                None
            },
        }
    } else {
        None
    }
}

/// A request target as declared by a component: a rootless path
/// (self-relative), or `scheme://host[:port][/path]` with an optionally
/// bracketed host.
pub open spec fn spec_parse_target(s: Seq<u8>) -> Option<TargetView> {
    if s.len() == 0 {
        None
    } else if s[0] == 47 {
        Some(TargetView::SelfRelative { path: s })
    } else {
        match spec_strip_scheme(s) {
            None => None,
            Some((scheme, i)) => if i >= s.len() {
                None
            } else if s[i] == 91 {
                let rb = spec_find_byte(s, i, 93);
                if rb < s.len() && rb > i + 1 {
                    spec_parse_target_tail(s, rb + 1, scheme, s.subrange(i + 1, rb))
                } else {
                    None
                }
            } else {
                let he = spec_find_host_end(s, i);
                if he > i {
                    spec_parse_target_tail(s, he, scheme, s.subrange(i, he))
                } else {
                    None
                }
            },
        }
    }
}

fn root_path() -> (v: Vec<u8>)
    ensures
        v@ == seq![47u8],
{
    let mut v: Vec<u8> = Vec::new();
    v.push(47);
    proof {
        assert(v@ =~= seq![47u8]);
    }
    v
}

fn parse_target_tail(s: &Vec<u8>, j: usize, scheme: Scheme, host: Vec<u8>) -> (r: Option<Target>)
    requires
        j <= s.len(),
    ensures
        (r is Some) == (spec_parse_target_tail(s@, j as int, scheme, host@) is Some),
        r matches Some(t) ==> spec_parse_target_tail(s@, j as int, scheme, host@) == Some(t@),
{
    if j == s.len() {
        Some(Target::Absolute { scheme, host, port: None, path: root_path() })
    } else if s[j] == 47 {
        Some(
            Target::Absolute { scheme, host, port: None, path: crate::url::tail_from(s, j) },
        )
    } else if s[j] == 58 {
        match dec_run_u16(s, j + 1) {
            None => None,
            Some((v, k)) => if k == s.len() {
                Some(Target::Absolute { scheme, host, port: Some(v), path: root_path() })
            } else if s[k] == 47 {
                Some(
                    Target::Absolute {
                        scheme,
                        host,
                        port: Some(v),
                        path: crate::url::tail_from(s, k),
                    },
                )
            } else {
                None
            },
        }
    } else {
        None
    }
}

/// Parses a declared request target.
pub fn parse_target(s: &Vec<u8>) -> (r: Option<Target>)
    ensures
        (r is Some) == (spec_parse_target(s@) is Some),
        r matches Some(t) ==> spec_parse_target(s@) == Some(t@),
{
    if s.len() == 0 {
        None
    } else if s[0] == 47 {
        let path = crate::url::tail_from(s, 0);
        proof {
            assert(s@.subrange(0, s@.len() as int) =~= s@);
        }
        Some(Target::SelfRelative { path })
    } else {
        let stripped: Option<(Scheme, usize)> = if s.len() >= 8 && s[0] == 104 && s[1] == 116
            && s[2] == 116 && s[3] == 112 && s[4] == 115 && s[5] == 58 && s[6] == 47
            && s[7] == 47 {
            Some((Scheme::Https, 8))
        } else if s.len() >= 7 && s[0] == 104 && s[1] == 116 && s[2] == 116 && s[3] == 112
            && s[4] == 58 && s[5] == 47 && s[6] == 47 {
            Some((Scheme::Http, 7))
        } else {
            None
        };
        match stripped {
            None => None,
            Some((scheme, i)) => if i >= s.len() {
                None
            } else if s[i] == 91 {
                let rb = crate::url::find_byte(s, i, 93);
                if rb < s.len() && rb > i + 1 {
                    parse_target_tail(s, rb + 1, scheme, crate::url::copy_range(s, i + 1, rb))
                } else {
                    None
                }
            } else {
                let he = crate::url::find_host_end(s, i);
                if he > i {
                    parse_target_tail(s, he, scheme, crate::url::copy_range(s, i, he))
                } else {
                    None
                }
            },
        }
    }
}

/// An outbound HTTP request as a component declares it: method, target,
/// headers, body and per-call timeouts.
#[derive(Debug, Clone, PartialEq, Eq)]
pub struct OutboundRequest {
    pub method: Vec<u8>,
    pub target: Target,
    pub headers: Vec<HeaderField>,
    pub body: Vec<u8>,
    pub timeouts: TimeoutConfig,
}

} // verus!

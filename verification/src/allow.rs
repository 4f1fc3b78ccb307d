use vstd::prelude::*;

use crate::parse::{bytes_eq, has_suffix, spec_has_suffix};

verus! {

/// A request scheme; the engine mediates plain and TLS HTTP only.
#[derive(Debug, Clone, Copy, PartialEq, Eq, Structural)]
pub enum Scheme {
    Http,
    Https,
}

/// The port implied by a scheme when a target or pattern names none.
pub open spec fn spec_default_port(s: Scheme) -> u16 {
    match s {
        Scheme::Http => 80,
        Scheme::Https => 443,
    }
}

impl Scheme {
    /// The port implied by this scheme when none is given.
    pub fn default_port(&self) -> (r: u16)
        ensures
            r == spec_default_port(*self),
    {
        match self {
            Scheme::Http => 80,
            Scheme::Https => 443,
        }
    }
}

/// The scheme part of an origin pattern: exact or wildcard.
#[derive(Debug, Clone, Copy, PartialEq, Eq, Structural)]
pub enum SchemePattern {
    AnyScheme,
    Exact(Scheme),
}

/// The host part of an origin pattern.
#[derive(Debug, Clone, PartialEq, Eq)]
pub enum HostPattern {
    /// A bare `*`: any host.
    AnyHost,
    /// A literal host, compared byte for byte with the declared host.
    Literal(Vec<u8>),
    /// A `*.`-wildcard; holds the required suffix including its leading dot.
    DomainSuffix(Vec<u8>),
    /// The reserved self-marker. Self-requests are exempt from allow-list
    /// evaluation, so this pattern matches no declared host.
    SelfHost,
}

/// A parsed permission rule: scheme, host and optional port. Declared per
/// instance at configuration time and immutable thereafter; evaluated
/// against the request's declared target before any name resolution.
#[derive(Debug, Clone, PartialEq, Eq)]
pub struct OriginPattern {
    pub scheme: SchemePattern,
    pub host: HostPattern,
    pub port: Option<u16>,
}

/// True when the pattern's scheme part accepts the request scheme.
pub open spec fn spec_scheme_matches(sp: SchemePattern, s: Scheme) -> bool {
    match sp {
        SchemePattern::AnyScheme => true,
        SchemePattern::Exact(x) => x == s,
    }
}

/// True when the pattern's host part accepts the declared host.
pub open spec fn spec_host_matches(hp: HostPattern, host: Seq<u8>) -> bool {
    match hp {
        HostPattern::AnyHost => true,
        HostPattern::Literal(h) => h@ == host,
        HostPattern::DomainSuffix(sfx) => spec_has_suffix(host, sfx@),
        HostPattern::SelfHost => false,
    }
}

/// True when the pattern's port part accepts the request's effective port:
/// an absent pattern port stands for the default port of the request's
/// scheme.
pub open spec fn spec_port_matches(pp: Option<u16>, port: u16, scheme: Scheme) -> bool {
    match pp {
        Some(p) => p == port,
        None => port == spec_default_port(scheme),
    }
}

/// True when one pattern accepts the declared scheme, host and effective
/// port of a request.
pub open spec fn spec_pattern_matches(
    pat: OriginPattern,
    scheme: Scheme,
    host: Seq<u8>,
    port: u16,
) -> bool {
    &&& spec_scheme_matches(pat.scheme, scheme)
    &&& spec_host_matches(pat.host, host)
    &&& spec_port_matches(pat.port, port, scheme)
}

/// True when at least one declared pattern accepts the request; an empty
/// pattern set therefore denies everything.
pub open spec fn spec_is_allowed(
    patterns: Seq<OriginPattern>,
    scheme: Scheme,
    host: Seq<u8>,
    port: u16,
) -> bool {
    exists|i: int| 0 <= i < patterns.len() && spec_pattern_matches(patterns[i], scheme, host, port)
}

/// Decides whether one pattern accepts the request.
pub fn pattern_matches(pat: &OriginPattern, scheme: Scheme, host: &Vec<u8>, port: u16) -> (r:
    bool)
    ensures
        r == spec_pattern_matches(*pat, scheme, host@, port),
{
    let scheme_ok = match pat.scheme {
        SchemePattern::AnyScheme => true,
        SchemePattern::Exact(x) => match (x, scheme) {
            (Scheme::Http, Scheme::Http) => true,
            (Scheme::Https, Scheme::Https) => true,
            _ => false,
        },
    };
    if !scheme_ok {
        return false;
    }
    let host_ok = match &pat.host {
        HostPattern::AnyHost => true,
        HostPattern::Literal(h) => bytes_eq(h, host),
        HostPattern::DomainSuffix(sfx) => has_suffix(host, sfx),
        HostPattern::SelfHost => false,
    };
    if !host_ok {
        return false;
    }
    match pat.port {
        Some(p) => p == port,
        None => port == scheme.default_port(),
    }
}

/// The host allow-list matcher: decides, before any network activity,
/// whether the declared scheme/host/port of a request is permitted by the
/// instance's pattern set. Deterministic and side-effect-free.
pub fn is_allowed(patterns: &Vec<OriginPattern>, scheme: Scheme, host: &Vec<u8>, port: u16) -> (r:
    bool)
    ensures
        r == spec_is_allowed(patterns@, scheme, host@, port),
{
    let mut k: usize = 0;
    while k < patterns.len()
        invariant
            k <= patterns.len(),
            forall|i: int| 0 <= i < k ==> !spec_pattern_matches(patterns@[i], scheme, host@, port),
        decreases patterns.len() - k,
    {
        if pattern_matches(&patterns[k], scheme, host, port) {
            return true;
        }
        k = k + 1;
    }
    false
}

/// Repeated evaluation of the allow-list check against the same pattern set
/// and target is deterministic: any two verdicts drawn from its contract on
/// equal inputs are equal, and the check itself takes its inputs by shared
/// reference, so no evaluation changes the pattern set or the target.
pub proof fn lemma_allow_check_idempotent(
    r1: bool,
    r2: bool,
    patterns: Seq<OriginPattern>,
    scheme: Scheme,
    host: Seq<u8>,
    port: u16,
)
    requires
        r1 == spec_is_allowed(patterns, scheme, host, port),
        r2 == spec_is_allowed(patterns, scheme, host, port),
    ensures
        r1 == r2,
{
}

/// A pattern set with no pattern denies every request.
pub proof fn lemma_empty_patterns_deny(scheme: Scheme, host: Seq<u8>, port: u16)
    ensures
        !spec_is_allowed(Seq::empty(), scheme, host, port),
{
}

} // verus!

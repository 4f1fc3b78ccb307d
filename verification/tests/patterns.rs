//! Pattern parsing and allow-list matching: wildcards, suffixes, ports,
//! deny-by-default, and the determinism of repeated evaluation.

use outbound_egress::allow::{
    is_allowed, pattern_matches, HostPattern, OriginPattern, Scheme, SchemePattern,
};
use outbound_egress::url::{parse_pattern, parse_patterns};

fn bytes(s: &str) -> Vec<u8> {
    s.as_bytes().to_vec()
}

fn pattern(s: &str) -> OriginPattern {
    parse_pattern(&bytes(s)).expect("pattern must parse")
}

#[test]
fn parse_wildcard_pattern() {
    let p = pattern("https://*");
    assert_eq!(p.scheme, SchemePattern::Exact(Scheme::Https));
    assert_eq!(p.host, HostPattern::AnyHost);
    assert_eq!(p.port, None);
}

#[test]
fn parse_literal_and_suffix_patterns() {
    let p = pattern("http://allowed.test");
    assert_eq!(p.host, HostPattern::Literal(bytes("allowed.test")));
    assert_eq!(p.port, None);

    let p = pattern("*://*.example.com:8443");
    assert_eq!(p.scheme, SchemePattern::AnyScheme);
    assert_eq!(p.host, HostPattern::DomainSuffix(bytes(".example.com")));
    assert_eq!(p.port, Some(8443));

    let p = pattern("http://self");
    assert_eq!(p.host, HostPattern::SelfHost);

    let p = pattern("https://[100::1]:443");
    assert_eq!(p.host, HostPattern::Literal(bytes("100::1")));
    assert_eq!(p.port, Some(443));
}

#[test]
fn malformed_patterns_are_rejected() {
    assert!(parse_pattern(&bytes("")).is_none());
    assert!(parse_pattern(&bytes("https://")).is_none());
    assert!(parse_pattern(&bytes("ftp://host")).is_none());
    assert!(parse_pattern(&bytes("https://host/path")).is_none());
    assert!(parse_pattern(&bytes("https://host:")).is_none());
    assert!(parse_pattern(&bytes("https://host:99999")).is_none());
    assert!(parse_pattern(&bytes("https://*.")).is_none());
    assert!(parse_pattern(&bytes("https://[::1")).is_none());
}

#[test]
fn matching_scheme_host_and_port() {
    let p = pattern("https://allowed.test");
    // default port for the scheme when the pattern names none
    assert!(pattern_matches(&p, Scheme::Https, &bytes("allowed.test"), 443));
    assert!(!pattern_matches(&p, Scheme::Https, &bytes("allowed.test"), 8443));
    assert!(!pattern_matches(&p, Scheme::Http, &bytes("allowed.test"), 443));
    assert!(!pattern_matches(&p, Scheme::Https, &bytes("denied.test"), 443));

    let p = pattern("*://*.example.com:8443");
    assert!(pattern_matches(&p, Scheme::Http, &bytes("a.example.com"), 8443));
    assert!(pattern_matches(&p, Scheme::Https, &bytes("b.a.example.com"), 8443));
    assert!(!pattern_matches(&p, Scheme::Https, &bytes("example.com"), 8443));
    assert!(!pattern_matches(&p, Scheme::Https, &bytes("a.example.com"), 443));

    // the self-marker pattern matches no declared host
    let p = pattern("http://self");
    assert!(!pattern_matches(&p, Scheme::Http, &bytes("self"), 80));
}

#[test]
fn empty_pattern_set_denies_by_default() {
    let none: Vec<OriginPattern> = Vec::new();
    assert!(!is_allowed(&none, Scheme::Https, &bytes("example.com"), 443));
}

#[test]
fn one_matching_pattern_allows() {
    let texts = vec![bytes("https://allowed.test"), bytes("http://*")];
    let ps = parse_patterns(&texts).unwrap();
    assert!(is_allowed(&ps, Scheme::Http, &bytes("anything.example"), 80));
    assert!(is_allowed(&ps, Scheme::Https, &bytes("allowed.test"), 443));
    assert!(!is_allowed(&ps, Scheme::Https, &bytes("denied.test"), 443));
}

#[test]
fn allow_check_is_deterministic() {
    let texts = vec![bytes("https://*"), bytes("http://*.example.com")];
    let ps = parse_patterns(&texts).unwrap();
    let first = is_allowed(&ps, Scheme::Https, &bytes("a.example.com"), 443);
    for _ in 0..10 {
        assert_eq!(is_allowed(&ps, Scheme::Https, &bytes("a.example.com"), 443), first);
    }
    let denied_first = is_allowed(&ps, Scheme::Http, &bytes("elsewhere.test"), 80);
    for _ in 0..10 {
        assert_eq!(is_allowed(&ps, Scheme::Http, &bytes("elsewhere.test"), 80), denied_first);
    }
}

#[test]
fn parse_patterns_rejects_any_bad_entry() {
    let texts = vec![bytes("https://*"), bytes("nonsense")];
    assert!(parse_patterns(&texts).is_none());
}

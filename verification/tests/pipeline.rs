//! Pipeline pieces in isolation: self-request resolution, the call
//! future's state machine, DNS failures, interceptor short-circuits, and
//! each policy error variant.

use outbound_egress::enforce::{
    authorize, send_request, EgressAction, Enforcement, InstanceConfig, SendStart,
};
use outbound_egress::errors::{ConfigError, ErrorCode};
use outbound_egress::future::{CallOutcome, OutboundCallFuture};
use outbound_egress::intercept::{
    HttpResponse, InterceptOutcome, InterceptRequest, ResolvedEndpoint,
};
use outbound_egress::ip::{IpAddress, Ipv4Address};
use outbound_egress::request::{parse_target, OutboundRequest, TimeoutConfig};
use outbound_egress::selfreq::{resolve_self, SelfRequestOrigin};
use outbound_egress::url::parse_patterns;

fn bytes(s: &str) -> Vec<u8> {
    s.as_bytes().to_vec()
}

fn v4(a: u8, b: u8, c: u8, d: u8) -> IpAddress {
    IpAddress::V4(Ipv4Address { a, b, c, d })
}

fn config(patterns: &[&str], allow_private_ips: bool) -> InstanceConfig {
    let texts: Vec<Vec<u8>> = patterns.iter().map(|p| bytes(p)).collect();
    InstanceConfig {
        allowed_origins: parse_patterns(&texts).unwrap(),
        allow_private_networks: allow_private_ips,
        self_request_origin: None,
    }
}

fn request(url: &str) -> OutboundRequest {
    OutboundRequest {
        method: bytes("GET"),
        target: parse_target(&bytes(url)).unwrap(),
        headers: Vec::new(),
        body: Vec::new(),
        timeouts: TimeoutConfig { connect_ms: 10, first_byte_ms: 0, between_bytes_ms: 0 },
    }
}

#[test]
fn self_request_without_origin_is_a_config_error() {
    let target = parse_target(&bytes("/self-request")).unwrap();
    let unset: Option<SelfRequestOrigin> = None;
    assert_eq!(
        resolve_self(target, &unset),
        Err(ConfigError::SelfRequestOriginUnset)
    );

    // and through the entry point: a deployment error, not a settled call
    let cfg = config(&["http://self"], true);
    match send_request(&cfg, 0, request("/self-request")) {
        Err(ConfigError::SelfRequestOriginUnset) => {}
        _ => panic!("expected the configuration error"),
    }
}

#[test]
fn self_request_rewrites_onto_the_origin() {
    let origin_target = parse_target(&bytes("http://[100::1]")).unwrap();
    let origin = SelfRequestOrigin::from_target(&origin_target).unwrap();
    let target = parse_target(&bytes("/self-request")).unwrap();
    let rewritten = resolve_self(target, &Some(origin)).unwrap();
    assert_eq!(rewritten, parse_target(&bytes("http://[100::1]/self-request")).unwrap());
}

#[test]
fn origin_cannot_be_built_from_a_self_marker() {
    let t = parse_target(&bytes("http://self/x")).unwrap();
    assert!(SelfRequestOrigin::from_target(&t).is_none());
    let t = parse_target(&bytes("/x")).unwrap();
    assert!(SelfRequestOrigin::from_target(&t).is_none());
}

#[test]
fn future_settles_exactly_once() {
    let mut f = OutboundCallFuture::pending();
    assert!(!f.is_ready());
    f.settle(CallOutcome::Failure(ErrorCode::ConnectionTimeout));
    assert!(f.is_ready());
    assert!(matches!(
        f.unwrap_ready(),
        CallOutcome::Failure(ErrorCode::ConnectionTimeout)
    ));

    let f = OutboundCallFuture::settled(CallOutcome::Failure(ErrorCode::HttpRequestDenied));
    assert!(f.is_ready());
}

#[test]
fn dns_failure_surfaces_as_dns_error() {
    let cfg = config(&["http://*"], false);
    let (machine, action) = Enforcement::begin(&cfg, 0, request("http://nowhere.test"));
    let host = match action {
        EgressAction::ResolveHost(h) => h,
        other => panic!("expected a resolution request, got {:?}", other),
    };
    assert_eq!(host, bytes("nowhere.test"));
    let (_m, action) = machine.on_resolved(Err(bytes("no such name")));
    assert!(matches!(action, EgressAction::Fail(ErrorCode::DnsError(d)) if d == bytes("no such name")));

    // an empty answer is a resolution failure too
    let (machine, _a) = Enforcement::begin(&cfg, 0, request("http://nowhere.test"));
    let (_m, action) = machine.on_resolved(Ok(Vec::new()));
    assert!(matches!(action, EgressAction::Fail(ErrorCode::DnsError(_))));
}

#[test]
fn interceptor_can_answer_directly() {
    let cfg = config(&["http://*"], false);
    let (machine, action) = Enforcement::begin(&cfg, 1, request("http://1.1.1.1"));
    let env = match action {
        EgressAction::RunInterceptor(env) => env,
        other => panic!("expected the interceptor to run, got {:?}", other),
    };
    assert_eq!(env.endpoint.ip, v4(1, 1, 1, 1));
    assert_eq!(env.endpoint.port, 80);
    assert!(!env.endpoint.tls);
    let response = HttpResponse { status: 204, headers: Vec::new(), body: Vec::new() };
    let (_m, action) = machine.on_intercept_outcome(InterceptOutcome::RespondWith(Ok(response)));
    assert!(matches!(action, EgressAction::Respond(r) if r.status == 204));
}

#[test]
fn interceptor_error_settles_the_call() {
    let cfg = config(&["http://*"], false);
    let (machine, action) = Enforcement::begin(&cfg, 1, request("http://1.1.1.1"));
    let _env = match action {
        EgressAction::RunInterceptor(env) => env,
        other => panic!("expected the interceptor to run, got {:?}", other),
    };
    let synthesized = InterceptOutcome::RespondWith(Err(ErrorCode::InternalError(Some(bytes(
        "hook fault",
    )))));
    let (_m, action) = machine.on_intercept_outcome(synthesized);
    assert!(matches!(action, EgressAction::Fail(ErrorCode::InternalError(Some(_)))));
}

#[test]
fn hooks_run_in_order_until_one_answers() {
    let cfg = config(&["http://*"], true);
    let (machine, action) = Enforcement::begin(&cfg, 2, request("http://1.1.1.1"));
    let env = match action {
        EgressAction::RunInterceptor(env) => env,
        other => panic!("expected the first hook, got {:?}", other),
    };
    // first hook passes the envelope through unchanged
    let (machine, action) = machine.on_intercept_outcome(InterceptOutcome::ContinueWith(env));
    let env = match action {
        EgressAction::RunInterceptor(env) => env,
        other => panic!("expected the second hook, got {:?}", other),
    };
    // second hook passes too; the chain is exhausted and the call proceeds
    let (_m, action) = machine.on_intercept_outcome(InterceptOutcome::ContinueWith(env));
    assert!(matches!(action, EgressAction::Connect(_)));
}

#[test]
fn authorize_is_the_last_word() {
    let endpoint = ResolvedEndpoint { ip: v4(127, 0, 0, 1), port: 80, tls: false };
    let env = InterceptRequest { request: request("http://1.1.1.1"), endpoint };
    assert!(matches!(
        authorize(false, env),
        EgressAction::Fail(ErrorCode::DestinationIpProhibited)
    ));

    let endpoint = ResolvedEndpoint { ip: v4(127, 0, 0, 1), port: 80, tls: false };
    let env = InterceptRequest { request: request("http://1.1.1.1"), endpoint };
    assert!(matches!(authorize(true, env), EgressAction::Connect(_)));

    let endpoint = ResolvedEndpoint { ip: v4(1, 1, 1, 1), port: 443, tls: true };
    let env = InterceptRequest { request: request("http://1.1.1.1"), endpoint };
    assert!(matches!(authorize(false, env), EgressAction::Connect(_)));
}

#[test]
fn admitted_request_is_owed_the_pipeline() {
    // a named host must go to resolution, not settle
    let cfg = config(&["https://*"], false);
    match send_request(&cfg, 0, request("https://example.test")).unwrap() {
        SendStart::InFlight(_, EgressAction::ResolveHost(h)) => {
            assert_eq!(h, bytes("example.test"));
        }
        other => panic!("expected a resolution request, got {:?}", other),
    }
    // a literal public host with a hook must reach the hook
    match send_request(&cfg, 1, request("https://[2606:4700::1111]")).unwrap() {
        SendStart::InFlight(_, EgressAction::RunInterceptor(env)) => {
            assert_eq!(env.endpoint.port, 443);
            assert!(env.endpoint.tls);
        }
        other => panic!("expected the interceptor to run, got {:?}", other),
    }
    // a literal public host with no hooks must be authorized to dial
    let cfg = config(&["https://*:8443"], false);
    match send_request(&cfg, 0, request("https://[2606:4700::1111]:8443/x")).unwrap() {
        SendStart::InFlight(_, EgressAction::Connect(env)) => {
            assert_eq!(env.endpoint.port, 8443);
        }
        other => panic!("expected the dial to be authorized, got {:?}", other),
    }
}

#[test]
fn connection_class_codes() {
    assert!(ErrorCode::ConnectionRefused.is_connection_class());
    assert!(ErrorCode::ConnectionTimeout.is_connection_class());
    assert!(ErrorCode::ConnectionReadTimeout.is_connection_class());
    assert!(ErrorCode::DnsError(bytes("x")).is_connection_class());
    assert!(!ErrorCode::HttpRequestDenied.is_connection_class());
    assert!(!ErrorCode::DestinationIpProhibited.is_connection_class());
    assert!(!ErrorCode::InternalError(None).is_connection_class());
}

#[test]
fn denied_request_settles_without_resolution() {
    let cfg = config(&["https://allowed.test"], true);
    match send_request(&cfg, 0, request("https://denied.test")).unwrap() {
        SendStart::Settled(f) => {
            assert!(f.is_ready());
            assert!(matches!(
                f.unwrap_ready(),
                CallOutcome::Failure(ErrorCode::HttpRequestDenied)
            ));
        }
        SendStart::InFlight(_, a) => panic!("denied request must not proceed, got {:?}", a),
    }
}

#[test]
fn literal_private_target_settles_without_hooks() {
    let cfg = config(&["http://*"], false);
    match send_request(&cfg, 0, request("http://127.0.0.1")).unwrap() {
        SendStart::Settled(f) => {
            assert!(matches!(
                f.unwrap_ready(),
                CallOutcome::Failure(ErrorCode::DestinationIpProhibited)
            ));
        }
        SendStart::InFlight(_, a) => panic!("prohibited target must not proceed, got {:?}", a),
    }
}

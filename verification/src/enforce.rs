use vstd::prelude::*;

use crate::allow::{is_allowed, spec_default_port, spec_is_allowed, OriginPattern, Scheme};
use crate::errors::{ConfigError, ErrorCode};
use crate::future::{CallOutcome, OutboundCallFuture};
use crate::intercept::{HttpResponse, InterceptOutcome, InterceptRequest, ResolvedEndpoint};
use crate::ip::{classify, spec_is_private, AddressClass, IpAddress};
use crate::parse::{parse_ip_literal, spec_parse_ip_literal};
use crate::request::{is_self_target, spec_is_self_target, spec_target_path, OutboundRequest, Target, TargetView};
use crate::selfreq::{resolve_self, SelfRequestOrigin};

verus! {

/// The instance-scoped egress policy: the declared origin patterns, the
/// private-network switch, and the optional self-request origin. Read-only
/// after instance activation and shared by every call the instance makes.
#[derive(Debug, Clone, PartialEq, Eq)]
pub struct InstanceConfig {
    pub allowed_origins: Vec<OriginPattern>,
    pub allow_private_networks: bool,
    pub self_request_origin: Option<SelfRequestOrigin>,
}

/// What the host must do next for one call, as decided by the enforcer.
#[derive(Debug, PartialEq, Eq)]
pub enum EgressAction {
    /// Resolve this host name; answer with `on_resolved`.
    ResolveHost(Vec<u8>),
    /// Hand the envelope to the next interceptor hook; answer with
    /// `on_intercept_outcome`.
    RunInterceptor(InterceptRequest),
    /// Enforcement passed: dial the envelope's endpoint.
    Connect(InterceptRequest),
    /// A hook answered the request directly; no connection is made.
    Respond(HttpResponse),
    /// The call fails with this code; settle the future with it.
    Fail(ErrorCode),
    /// A deployment misconfiguration, raised to the host operator.
    ConfigFailure(ConfigError),
}

/// Where one call stands inside the enforcement pipeline.
#[derive(Debug, PartialEq, Eq)]
pub enum EnforcementPhase {
    /// Waiting for name resolution of the request's host.
    Resolving { request: OutboundRequest, scheme: Scheme, port: u16 },
    /// The envelope is with an interceptor hook.
    Intercepting,
    /// The pipeline has produced its final action.
    Finished,
}

/// The enforcement pipeline for one outbound call. The fixed order —
/// self-resolution, allow-list, name resolution, interception, and an
/// unconditional final address classification — is walked step by step:
/// each step returns the action the host must perform, and the host feeds
/// the result back in. No path reaches `Connect` without passing the
/// classification of whatever endpoint the chain left behind.
#[derive(Debug, PartialEq, Eq)]
pub struct Enforcement {
    pub allow_private: bool,
    pub hooks_remaining: usize,
    pub phase: EnforcementPhase,
}

/// The port a request or pattern with no explicit port stands for.
pub open spec fn spec_effective_port(port: Option<u16>, scheme: Scheme) -> u16 {
    match port {
        Some(p) => p,
        None => spec_default_port(scheme),
    }
}

/// True when the declared (pre-resolution) target of a request is accepted
/// by the instance's pattern set.
pub open spec fn spec_target_allowed(config: InstanceConfig, t: TargetView) -> bool {
    t matches TargetView::Absolute { scheme, host, port, .. } && spec_is_allowed(
        config.allowed_origins@,
        scheme,
        host,
        spec_effective_port(port, scheme),
    )
}

/// The target the pipeline enforces: a self-designating target rewritten
/// onto the configured self-request origin, any other target unchanged.
pub open spec fn spec_rewritten_target(config: InstanceConfig, t: TargetView) -> TargetView {
    if spec_is_self_target(t) {
        match config.self_request_origin {
            Some(o) => TargetView::Absolute {
                scheme: o.scheme,
                host: o.host@,
                port: o.port,
                path: spec_target_path(t),
            },
            None => t,
        }
    } else {
        t
    }
}

/// The final, unconditional check of step five: whatever connect endpoint
/// is in the envelope after the chain — original, resolved or overridden —
/// is classified, and a private/reserved endpoint is prohibited unless the
/// instance's policy allows private networks.
pub open spec fn spec_authorize(allow_private: bool, env: InterceptRequest) -> EgressAction {
    if spec_is_private(env.endpoint.ip) && !allow_private {
        EgressAction::Fail(ErrorCode::DestinationIpProhibited)
    } else {
        EgressAction::Connect(env)
    }
}

/// Classifies the endpoint left in the envelope and either prohibits the
/// connection or authorizes it; the last step before any transport work.
pub fn authorize(allow_private: bool, env: InterceptRequest) -> (r: EgressAction)
    ensures
        r == spec_authorize(allow_private, env),
{
    let private = match classify(&env.endpoint.ip) {
        AddressClass::Private => true,
        AddressClass::Public => false,
    };
    if private && !allow_private {
        EgressAction::Fail(ErrorCode::DestinationIpProhibited)
    } else {
        EgressAction::Connect(env)
    }
}

/// An interceptor that overrides the connect endpoint to a private or
/// reserved address is always prohibited when policy disallows private
/// networks — whatever endpoint stood in the envelope before the override,
/// and however the envelope got its endpoint.
pub proof fn lemma_private_override_cannot_bypass(env: InterceptRequest)
    requires
        spec_is_private(env.endpoint.ip),
    ensures
        spec_authorize(false, env) == EgressAction::Fail(ErrorCode::DestinationIpProhibited),
{
}

/// When the instance's policy allows private networks, the final
/// classification never prohibits a destination: it authorizes every
/// endpoint the chain leaves behind.
pub proof fn lemma_allow_private_never_prohibits(env: InterceptRequest)
    ensures
        spec_authorize(true, env) == EgressAction::Connect(env),
{
}

/// True when the pipeline admits the request past its first two steps: a
/// self-request with a configured origin, or any other request whose
/// declared target matches a pattern. An admitted request is owed the
/// pipeline's remaining work (see `spec_owed_action`).
pub open spec fn spec_admitted(config: InstanceConfig, t: TargetView) -> bool {
    if spec_is_self_target(t) {
        config.self_request_origin is Some
    } else {
        spec_target_allowed(config, t)
    }
}

/// True when `rq` is the component's request `request` as the pipeline
/// carries it onward: the target rewritten (for a self-request), every
/// other field unchanged.
pub open spec fn spec_carries_request(
    config: InstanceConfig,
    rq: OutboundRequest,
    request: OutboundRequest,
) -> bool {
    &&& rq.target@ == spec_rewritten_target(config, request.target@)
    &&& rq.method == request.method
    &&& rq.headers == request.headers
    &&& rq.body == request.body
    &&& rq.timeouts == request.timeouts
}

/// What each forwarding action must carry for this request: the host sent
/// to resolution is the rewritten target's host and no IP literal; an
/// envelope's endpoint is the literal host's address with the target's
/// effective port and the scheme's transport-security flag; and the
/// envelope still holds the component's request.
pub open spec fn spec_action_fits_request(
    config: InstanceConfig,
    hook_count: int,
    request: OutboundRequest,
    a: EgressAction,
) -> bool {
    spec_rewritten_target(config, request.target@) matches TargetView::Absolute {
        scheme,
        host,
        port,
        ..
    } ==> {
        &&& a matches EgressAction::ResolveHost(h) ==> h@ == host && spec_parse_ip_literal(host)
            is None
        &&& a matches EgressAction::RunInterceptor(env) ==> {
            &&& hook_count > 0
            &&& spec_parse_ip_literal(host) == Some(env.endpoint.ip)
            &&& env.endpoint.port == spec_effective_port(port, scheme)
            &&& env.endpoint.tls == (scheme is Https)
            &&& spec_carries_request(config, env.request, request)
        }
        &&& a matches EgressAction::Connect(env) ==> {
            &&& hook_count == 0
            &&& spec_parse_ip_literal(host) == Some(env.endpoint.ip)
            &&& env.endpoint.port == spec_effective_port(port, scheme)
            &&& env.endpoint.tls == (scheme is Https)
            &&& spec_carries_request(config, env.request, request)
            &&& config.allow_private_networks || !spec_is_private(env.endpoint.ip)
        }
    }
}

/// The progress owed an admitted request: a host that is no IP literal
/// goes to resolution; a literal host goes to the first hook when hooks
/// are installed; with none installed, the final classification alone
/// decides between the dial and `DestinationIpProhibited`. A body that
/// refuses or stalls an admitted request is thereby ruled out.
pub open spec fn spec_owed_action(
    config: InstanceConfig,
    hook_count: int,
    t: TargetView,
    a: EgressAction,
) -> bool {
    spec_rewritten_target(config, t) matches TargetView::Absolute { host, .. } ==> {
        &&& spec_parse_ip_literal(host) is None ==> (a matches EgressAction::ResolveHost(_))
        &&& (spec_parse_ip_literal(host) is Some && hook_count > 0) ==> (a matches EgressAction::RunInterceptor(_))
        &&& spec_parse_ip_literal(host) matches Some(ip) ==> (hook_count == 0 ==> (
        if config.allow_private_networks || !spec_is_private(ip) {
            a matches EgressAction::Connect(_)
        } else {
            a == EgressAction::Fail(ErrorCode::DestinationIpProhibited)
        }))
    }
}

/// While a call waits on resolution, the machine still carries the
/// component's request, its scheme, and its effective port.
pub open spec fn spec_resolving_fits_request(
    config: InstanceConfig,
    m: Enforcement,
    request: OutboundRequest,
) -> bool {
    m.phase matches EnforcementPhase::Resolving { request: rq, scheme: s2, port: p2 } ==> (
    spec_rewritten_target(config, request.target@) matches TargetView::Absolute {
        scheme,
        port,
        ..
    } && spec_carries_request(config, rq, request) && s2 == scheme && p2 == spec_effective_port(
        port,
        scheme,
    ))
}

impl Enforcement {
    /// Machine well-formedness: while an envelope is out with a hook, at
    /// least one hook remains to be accounted.
    pub open spec fn spec_wf(&self) -> bool {
        self.phase is Intercepting ==> self.hooks_remaining >= 1
    }

    /// Steps three and four's entry for an already-concrete target: a
    /// literal-IP host becomes the connect endpoint at once, any other
    /// host is sent to name resolution.
    fn dispatch(allow_private: bool, hook_count: usize, request: OutboundRequest) -> (r: (
        Enforcement,
        EgressAction,
    ))
        requires
            request.target@ is Absolute,
        ensures
            r.0.allow_private == allow_private,
            r.0.hooks_remaining == hook_count,
            r.0.spec_wf(),
            (r.0.phase is Resolving) <==> (r.1 matches EgressAction::ResolveHost(_)),
            (r.0.phase is Intercepting) <==> (r.1 matches EgressAction::RunInterceptor(_)),
            !(r.1 matches EgressAction::Respond(_)),
            !(r.1 matches EgressAction::ConfigFailure(_)),
            r.1 matches EgressAction::Fail(c) ==> c == ErrorCode::DestinationIpProhibited
                && !allow_private,
            request.target@ matches TargetView::Absolute { scheme, host, port, .. } ==> {
                &&& r.1 matches EgressAction::ResolveHost(h) ==> {
                    &&& h@ == host
                    &&& spec_parse_ip_literal(host) is None
                    &&& r.0.phase matches EnforcementPhase::Resolving { request: rq, scheme: s2, port: p2 }
                        && rq == request && s2 == scheme && p2 == spec_effective_port(port, scheme)
                }
                &&& r.1 matches EgressAction::RunInterceptor(env) ==> {
                    &&& hook_count > 0
                    &&& spec_parse_ip_literal(host) == Some(env.endpoint.ip)
                    &&& env.endpoint.port == spec_effective_port(port, scheme)
                    &&& env.endpoint.tls == (scheme is Https)
                    &&& env.request == request
                }
                &&& r.1 matches EgressAction::Connect(env) ==> {
                    &&& hook_count == 0
                    &&& spec_parse_ip_literal(host) == Some(env.endpoint.ip)
                    &&& env.endpoint.port == spec_effective_port(port, scheme)
                    &&& env.endpoint.tls == (scheme is Https)
                    &&& env.request == request
                    &&& allow_private || !spec_is_private(env.endpoint.ip)
                }
                &&& spec_parse_ip_literal(host) is None ==> (r.1 matches EgressAction::ResolveHost(_))
                &&& (spec_parse_ip_literal(host) is Some && hook_count > 0) ==> (r.1 matches EgressAction::RunInterceptor(_))
                &&& spec_parse_ip_literal(host) matches Some(ip) ==> (hook_count == 0 ==> r.1
                    == spec_authorize(
                    allow_private,
                    (InterceptRequest {
                        request,
                        endpoint: ResolvedEndpoint {
                            ip,
                            port: spec_effective_port(port, scheme),
                            tls: scheme is Https,
                        },
                    }),
                ))
            },
    {
        let info: (Scheme, u16, Option<IpAddress>, Vec<u8>) = match &request.target {
            Target::Absolute { scheme, host, port, .. } => {
                let sch = *scheme;
                let eff = match port {
                    Some(p) => *p,
                    None => sch.default_port(),
                };
                (sch, eff, parse_ip_literal(host), host.clone())
            },
            Target::SelfRelative { .. } => {
                proof {
                    assert(false);
                }
                unreached()
            },
        };
        let (sch, eff, lit, host_copy) = info;
        match lit {
            Some(ip) => {
                let tls = match sch {
                    Scheme::Https => true,
                    Scheme::Http => false,
                };
                let env = InterceptRequest {
                    request,
                    endpoint: ResolvedEndpoint { ip, port: eff, tls },
                };
                if hook_count > 0 {
                    (
                        Enforcement {
                            allow_private,
                            hooks_remaining: hook_count,
                            phase: EnforcementPhase::Intercepting,
                        },
                        EgressAction::RunInterceptor(env),
                    )
                } else {
                    (
                        Enforcement {
                            allow_private,
                            hooks_remaining: hook_count,
                            phase: EnforcementPhase::Finished,
                        },
                        authorize(allow_private, env),
                    )
                }
            },
            None => (
                Enforcement {
                    allow_private,
                    hooks_remaining: hook_count,
                    phase: EnforcementPhase::Resolving { request, scheme: sch, port: eff },
                },
                EgressAction::ResolveHost(host_copy),
            ),
        }
    }

    /// Steps one and two for a freshly declared request: a self-marker
    /// target is rewritten via the self-request origin (or fails with the
    /// configuration error) and is exempt from allow-list evaluation; any
    /// other target must match a declared pattern before any resolution,
    /// interception or connection happens.
    pub fn begin(config: &InstanceConfig, hook_count: usize, request: OutboundRequest) -> (r: (
        Enforcement,
        EgressAction,
    ))
        ensures
            r.0.allow_private == config.allow_private_networks,
            r.0.hooks_remaining == hook_count,
            r.0.spec_wf(),
            (r.0.phase is Resolving) <==> (r.1 matches EgressAction::ResolveHost(_)),
            (r.0.phase is Intercepting) <==> (r.1 matches EgressAction::RunInterceptor(_)),
            !(r.1 matches EgressAction::Respond(_)),
            (spec_is_self_target(request.target@) && config.self_request_origin is None) <==> r.1
                == EgressAction::ConfigFailure(ConfigError::SelfRequestOriginUnset),
            r.1 matches EgressAction::ConfigFailure(e) ==> e == ConfigError::SelfRequestOriginUnset,
            (!spec_is_self_target(request.target@) && !spec_target_allowed(*config, request.target@))
                <==> r.1 == EgressAction::Fail(ErrorCode::HttpRequestDenied),
            r.1 matches EgressAction::Fail(c) ==> c == ErrorCode::HttpRequestDenied || (c
                == ErrorCode::DestinationIpProhibited && !config.allow_private_networks),
            r.1 matches EgressAction::Connect(env) ==> (config.allow_private_networks
                || !spec_is_private(env.endpoint.ip)),
            spec_action_fits_request(*config, hook_count as int, request, r.1),
            spec_resolving_fits_request(*config, r.0, request),
            spec_admitted(*config, request.target@) ==> (spec_rewritten_target(
                *config,
                request.target@,
            ) is Absolute && spec_owed_action(*config, hook_count as int, request.target@, r.1)),
    {
        if is_self_target(&request.target) {
            match &config.self_request_origin {
                None => (
                    Enforcement {
                        allow_private: config.allow_private_networks,
                        hooks_remaining: hook_count,
                        phase: EnforcementPhase::Finished,
                    },
                    EgressAction::ConfigFailure(ConfigError::SelfRequestOriginUnset),
                ),
                Some(_) => {
                    let OutboundRequest { method, target, headers, body, timeouts } = request;
                    let target2 = match resolve_self(target, &config.self_request_origin) {
                        Ok(t) => t,
                        Err(_) => {
                            proof {
                                assert(false);
                            }
                            unreached()
                        },
                    };
                    let request2 = OutboundRequest {
                        method,
                        target: target2,
                        headers,
                        body,
                        timeouts,
                    };
                    Self::dispatch(config.allow_private_networks, hook_count, request2)
                },
            }
        } else {
            let allowed = match &request.target {
                Target::Absolute { scheme, host, port, .. } => {
                    let sch = *scheme;
                    let eff = match port {
                        Some(p) => *p,
                        None => sch.default_port(),
                    };
                    is_allowed(&config.allowed_origins, sch, host, eff)
                },
                Target::SelfRelative { .. } => {
                    proof {
                        assert(false);
                    }
                    unreached()
                },
            };
            if !allowed {
                (
                    Enforcement {
                        allow_private: config.allow_private_networks,
                        hooks_remaining: hook_count,
                        phase: EnforcementPhase::Finished,
                    },
                    EgressAction::Fail(ErrorCode::HttpRequestDenied),
                )
            } else {
                Self::dispatch(config.allow_private_networks, hook_count, request)
            }
        }
    }

    /// Step three's completion: a resolution failure or an empty answer
    /// surfaces as a DNS error; otherwise the first resolved address
    /// becomes the chosen connect endpoint, which goes to the chain — or,
    /// with no hooks installed, straight to the final classification.
    pub fn on_resolved(self, outcome: Result<Vec<IpAddress>, Vec<u8>>) -> (r: (
        Enforcement,
        EgressAction,
    ))
        requires
            self.phase is Resolving,
            self.spec_wf(),
        ensures
            r.0.allow_private == self.allow_private,
            r.0.hooks_remaining == self.hooks_remaining,
            r.0.spec_wf(),
            !(r.0.phase is Resolving),
            (r.0.phase is Intercepting) <==> (r.1 matches EgressAction::RunInterceptor(_)),
            !(r.1 matches EgressAction::ResolveHost(_)),
            !(r.1 matches EgressAction::Respond(_)),
            !(r.1 matches EgressAction::ConfigFailure(_)),
            outcome matches Err(d) ==> r.1 == EgressAction::Fail(ErrorCode::DnsError(d)),
            outcome matches Ok(addrs) ==> (if addrs@.len() == 0 {
                r.1 matches EgressAction::Fail(c) && c matches ErrorCode::DnsError(_)
            } else {
                self.phase matches EnforcementPhase::Resolving { request, scheme, port } ==> {
                    &&& self.hooks_remaining > 0 ==> (r.1 matches EgressAction::RunInterceptor(env)
                        && env.endpoint.ip == addrs@[0] && env.endpoint.port == port
                        && env.endpoint.tls == (scheme is Https) && env.request == request)
                    &&& self.hooks_remaining == 0 ==> r.1 == spec_authorize(
                        self.allow_private,
                        InterceptRequest {
                            request,
                            endpoint: ResolvedEndpoint {
                                ip: addrs@[0],
                                port,
                                tls: scheme is Https,
                            },
                        },
                    )
                }
            }),
            r.1 matches EgressAction::Connect(env) ==> (self.allow_private || !spec_is_private(
                env.endpoint.ip,
            )),
            self.allow_private ==> !(r.1 matches EgressAction::Fail(c)
                && c is DestinationIpProhibited),
    {
        let (request, scheme, port) = match self.phase {
            EnforcementPhase::Resolving { request, scheme, port } => (request, scheme, port),
            _ => {
                proof {
                    assert(false);
                }
                unreached()
            },
        };
        match outcome {
            Err(d) => (
                Enforcement {
                    allow_private: self.allow_private,
                    hooks_remaining: self.hooks_remaining,
                    phase: EnforcementPhase::Finished,
                },
                EgressAction::Fail(ErrorCode::DnsError(d)),
            ),
            Ok(addrs) => {
                if addrs.len() == 0 {
                    (
                        Enforcement {
                            allow_private: self.allow_private,
                            hooks_remaining: self.hooks_remaining,
                            phase: EnforcementPhase::Finished,
                        },
                        EgressAction::Fail(ErrorCode::DnsError(Vec::new())),
                    )
                } else {
                    let tls = match scheme {
                        Scheme::Https => true,
                        Scheme::Http => false,
                    };
                    let env = InterceptRequest {
                        request,
                        endpoint: ResolvedEndpoint { ip: addrs[0], port, tls },
                    };
                    if self.hooks_remaining > 0 {
                        (
                            Enforcement {
                                allow_private: self.allow_private,
                                hooks_remaining: self.hooks_remaining,
                                phase: EnforcementPhase::Intercepting,
                            },
                            EgressAction::RunInterceptor(env),
                        )
                    } else {
                        (
                            Enforcement {
                                allow_private: self.allow_private,
                                hooks_remaining: self.hooks_remaining,
                                phase: EnforcementPhase::Finished,
                            },
                            authorize(self.allow_private, env),
                        )
                    }
                }
            },
        }
    }

    /// Step four's progression: a hook that answers directly ends the call
    /// with its response or error and no connection; a hook that passes
    /// the envelope on reaches the next hook, or — after the last hook —
    /// the unconditional final classification of whatever endpoint the
    /// chain left in the envelope.
    pub fn on_intercept_outcome(self, outcome: InterceptOutcome) -> (r: (
        Enforcement,
        EgressAction,
    ))
        requires
            self.phase is Intercepting,
            self.spec_wf(),
        ensures
            r.0.allow_private == self.allow_private,
            r.0.hooks_remaining == self.hooks_remaining - 1,
            r.0.spec_wf(),
            !(r.0.phase is Resolving),
            (r.0.phase is Intercepting) <==> (r.1 matches EgressAction::RunInterceptor(_)),
            !(r.1 matches EgressAction::ResolveHost(_)),
            !(r.1 matches EgressAction::ConfigFailure(_)),
            outcome matches InterceptOutcome::RespondWith(resp) ==> (match resp {
                Ok(response) => r.1 == EgressAction::Respond(response),
                Err(code) => r.1 == EgressAction::Fail(code),
            }),
            r.1 matches EgressAction::Respond(_) ==> outcome matches InterceptOutcome::RespondWith(
                Ok(_),
            ),
            outcome matches InterceptOutcome::ContinueWith(env) ==> (
            if self.hooks_remaining > 1 {
                r.1 == EgressAction::RunInterceptor(env)
            } else {
                r.1 == spec_authorize(self.allow_private, env)
            }),
            r.1 matches EgressAction::Connect(env) ==> (self.allow_private || !spec_is_private(
                env.endpoint.ip,
            )),
            self.allow_private && !(outcome matches InterceptOutcome::RespondWith(Err(c)) && c
                is DestinationIpProhibited) ==> !(r.1 matches EgressAction::Fail(c2) && c2
                is DestinationIpProhibited),
    {
        match outcome {
            InterceptOutcome::RespondWith(resp) => {
                let action = match resp {
                    Ok(response) => EgressAction::Respond(response),
                    Err(code) => EgressAction::Fail(code),
                };
                (
                    Enforcement {
                        allow_private: self.allow_private,
                        hooks_remaining: self.hooks_remaining - 1,
                        phase: EnforcementPhase::Finished,
                    },
                    action,
                )
            },
            InterceptOutcome::ContinueWith(env) => {
                if self.hooks_remaining > 1 {
                    (
                        Enforcement {
                            allow_private: self.allow_private,
                            hooks_remaining: self.hooks_remaining - 1,
                            phase: EnforcementPhase::Intercepting,
                        },
                        EgressAction::RunInterceptor(env),
                    )
                } else {
                    (
                        Enforcement {
                            allow_private: self.allow_private,
                            hooks_remaining: self.hooks_remaining - 1,
                            phase: EnforcementPhase::Finished,
                        },
                        authorize(self.allow_private, env),
                    )
                }
            },
        }
    }
}

/// How a freshly declared call starts: already settled, or in flight with
/// the first action the host must perform.
#[derive(Debug)]
pub enum SendStart {
    /// The call settled before any network activity.
    Settled(OutboundCallFuture),
    /// The host must drive the enforcement machine with this first action.
    InFlight(Enforcement, EgressAction),
}

/// The sole entry point of the capability a component observes: hands the
/// declared request to the enforcement pipeline. A target denied by the
/// allow-list, or a literal private destination under a prohibiting
/// policy, comes back as an already-settled future; a self-request with no
/// configured origin is a deployment error, not a settled call.
pub fn send_request(config: &InstanceConfig, hook_count: usize, request: OutboundRequest) -> (r:
    Result<SendStart, ConfigError>)
    ensures
        (spec_is_self_target(request.target@) && config.self_request_origin is None) <==> r
            is Err,
        r matches Err(e) ==> e == ConfigError::SelfRequestOriginUnset,
        (!spec_is_self_target(request.target@) && !spec_target_allowed(*config, request.target@))
            <==> (r matches Ok(s) && s matches SendStart::Settled(f) && f.spec_settled() == Some(
            CallOutcome::Failure(ErrorCode::HttpRequestDenied),
        )),
        r matches Ok(s) ==> (s matches SendStart::Settled(f) ==> (f.spec_settled() matches Some(o)
            && o matches CallOutcome::Failure(c) && (c == ErrorCode::HttpRequestDenied || (c
            == ErrorCode::DestinationIpProhibited && !config.allow_private_networks)))),
        r matches Ok(s) ==> (s matches SendStart::InFlight(m, a) ==> {
            &&& m.spec_wf()
            &&& m.allow_private == config.allow_private_networks
            &&& m.hooks_remaining == hook_count
            &&& (m.phase is Resolving) <==> (a matches EgressAction::ResolveHost(_))
            &&& (m.phase is Intercepting) <==> (a matches EgressAction::RunInterceptor(_))
            &&& !(a matches EgressAction::Fail(_))
            &&& !(a matches EgressAction::Respond(_))
            &&& !(a matches EgressAction::ConfigFailure(_))
            &&& a matches EgressAction::Connect(env) ==> (config.allow_private_networks
                || !spec_is_private(env.endpoint.ip))
            &&& spec_action_fits_request(*config, hook_count as int, request, a)
            &&& spec_resolving_fits_request(*config, m, request)
        }),
        spec_admitted(*config, request.target@) ==> (spec_rewritten_target(
            *config,
            request.target@,
        ) matches TargetView::Absolute { host, .. } ==> (match r {
            Ok(s) => match s {
                SendStart::InFlight(_, a) => spec_owed_action(
                    *config,
                    hook_count as int,
                    request.target@,
                    a,
                ),
                SendStart::Settled(f) => {
                    &&& f.spec_settled() == Some(
                        CallOutcome::Failure(ErrorCode::DestinationIpProhibited),
                    )
                    &&& hook_count == 0
                    &&& !config.allow_private_networks
                    &&& spec_parse_ip_literal(host) matches Some(ip) && spec_is_private(ip)
                },
            },
            Err(_) => false,
        })),
{
    let (machine, action) = Enforcement::begin(config, hook_count, request);
    match action {
        EgressAction::ConfigFailure(e) => Err(e),
        EgressAction::Fail(code) => Ok(
            SendStart::Settled(OutboundCallFuture::settled(CallOutcome::Failure(code))),
        ),
        EgressAction::Respond(_) => {
            proof {
                assert(false);
            }
            unreached()
        },
        EgressAction::ResolveHost(h) => Ok(
            SendStart::InFlight(machine, EgressAction::ResolveHost(h)),
        ),
        EgressAction::RunInterceptor(env) => Ok(
            SendStart::InFlight(machine, EgressAction::RunInterceptor(env)),
        ),
        EgressAction::Connect(env) => Ok(
            SendStart::InFlight(machine, EgressAction::Connect(env)),
        ),
    }
}

} // verus!

use vstd::prelude::*;

use crate::allow::Scheme;
use crate::errors::ConfigError;
use crate::request::{spec_is_self_target, spec_target_path, Target};
use crate::url::spec_self_host;

verus! {

/// The externally reachable origin of "this application", set once per
/// instance activation by the embedding host — never by the component —
/// and read-only thereafter. Absent by default.
#[derive(Debug, Clone, PartialEq, Eq)]
pub struct SelfRequestOrigin {
    pub scheme: Scheme,
    pub host: Vec<u8>,
    pub port: Option<u16>,
}

impl SelfRequestOrigin {
    /// Well-formed origins name a concrete host: nonempty and not the
    /// self-marker itself.
    pub open spec fn spec_wf(&self) -> bool {
        self.host@.len() > 0 && self.host@ != spec_self_host()
    }

    /// Builds a self-request origin from an absolute target, as the host
    /// does when it activates an instance; the target's path is ignored.
    pub fn from_target(t: &Target) -> (r: Option<SelfRequestOrigin>)
        ensures
            r matches Some(o) ==> {
                &&& o.spec_wf()
                &&& t@ matches crate::request::TargetView::Absolute { scheme, host, port, .. }
                    && o.scheme == scheme && o.host@ == host && o.port == port
            },
            r is None ==> match t@ {
                crate::request::TargetView::Absolute { host, .. } => host.len() == 0 || host
                    == spec_self_host(),
                crate::request::TargetView::SelfRelative { .. } => true,
            },
    {
        match t {
            Target::Absolute { scheme, host, port, .. } => {
                let marker = crate::url::self_host();
                if host.len() > 0 && !crate::parse::bytes_eq(host, &marker) {
                    Some(
                        SelfRequestOrigin {
                            scheme: *scheme,
                            host: host.clone(),
                            port: *port,
                        },
                    )
                } else {
                    None
                }
            },
            Target::SelfRelative { .. } => None,
        }
    }
}

/// Rewrites a self-designating target onto the instance's configured
/// self-request origin, producing the concrete absolute target the rest of
/// the pipeline enforces. Fails with a configuration error — a deployment
/// fault, not a policy denial — exactly when no origin has been set.
pub fn resolve_self(target: Target, origin: &Option<SelfRequestOrigin>) -> (r: Result<
    Target,
    ConfigError,
>)
    requires
        spec_is_self_target(target@),
    ensures
        origin is None <==> r == Err::<Target, ConfigError>(ConfigError::SelfRequestOriginUnset),
        origin matches Some(o) ==> r matches Ok(t) && t@ matches crate::request::TargetView::Absolute {
            scheme,
            host,
            port,
            path,
        } && scheme == o.scheme && host == o.host@ && port == o.port && path == spec_target_path(
            target@,
        ),
{
    match origin {
        None => Err(ConfigError::SelfRequestOriginUnset),
        Some(o) => {
            let path = match target {
                Target::Absolute { path, .. } => path,
                Target::SelfRelative { path } => path,
            };
            Ok(
                Target::Absolute {
                    scheme: o.scheme,
                    host: o.host.clone(),
                    port: o.port,
                    path,
                },
            )
        },
    }
}

} // verus!

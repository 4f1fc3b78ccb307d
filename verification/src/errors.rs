use vstd::prelude::*;

verus! {

/// The closed taxonomy of failures surfaced to a component.
///
/// Every failure detected inside the enforcement pipeline settles the call
/// with exactly one of these codes; none is ever wrapped in a generic
/// failure.
#[derive(Debug, Clone, PartialEq, Eq)]
pub enum ErrorCode {
    /// The target's scheme/host/port matched no declared origin pattern.
    HttpRequestDenied,
    /// The resolved or overridden connect address is private/reserved while
    /// the instance's policy forbids private networks.
    DestinationIpProhibited,
    /// Name resolution failed; carries an underlying diagnostic payload.
    DnsError(Vec<u8>),
    /// The transport reported that the peer rejected the connection.
    ConnectionRefused,
    /// The connect-phase timeout expired.
    ConnectionTimeout,
    /// A read-phase (first-byte or between-bytes) timeout expired.
    ConnectionReadTimeout,
    /// Catch-all for host-side faults unrelated to policy; carries optional
    /// diagnostic text.
    InternalError(Option<Vec<u8>>),
}

impl ErrorCode {
    /// True of the transport-level outcomes: rejection, connect-phase
    /// timeout, read-phase timeout, and resolution failure.
    pub open spec fn spec_is_connection_class(&self) -> bool {
        match *self {
            ErrorCode::ConnectionRefused => true,
            ErrorCode::ConnectionTimeout => true,
            ErrorCode::ConnectionReadTimeout => true,
            ErrorCode::DnsError(_) => true,
            _ => false,
        }
    }

    /// Decides whether this code reports a transport-level outcome rather
    /// than a policy decision.
    pub fn is_connection_class(&self) -> (r: bool)
        ensures
            r == self.spec_is_connection_class(),
    {
        match self {
            ErrorCode::ConnectionRefused => true,
            ErrorCode::ConnectionTimeout => true,
            ErrorCode::ConnectionReadTimeout => true,
            ErrorCode::DnsError(_) => true,
            _ => false,
        }
    }
}

/// A deployment misconfiguration raised to the host operator, distinct from
/// every per-request `ErrorCode`.
#[derive(Debug, Clone, PartialEq, Eq, Structural)]
pub enum ConfigError {
    /// A self-request was attempted while no self-request origin had been
    /// set for the instance.
    SelfRequestOriginUnset,
}

} // verus!

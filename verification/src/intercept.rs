use vstd::prelude::*;

use crate::errors::ErrorCode;
use crate::ip::IpAddress;
use crate::request::{HeaderField, OutboundRequest};

verus! {

/// A concrete connect endpoint: the address that will actually be dialed,
/// its port, and whether the transport is TLS.
#[derive(Debug, Clone, Copy, PartialEq, Eq, Structural)]
pub struct ResolvedEndpoint {
    pub ip: IpAddress,
    pub port: u16,
    pub tls: bool,
}

/// A synthesized or received HTTP response.
#[derive(Debug, Clone, PartialEq, Eq)]
pub struct HttpResponse {
    pub status: u16,
    pub headers: Vec<HeaderField>,
    pub body: Vec<u8>,
}

/// The mutable envelope passed by ownership through the interception
/// chain: the outbound request together with the endpoint it is about to
/// be connected to. A hook may replace any field, the connect endpoint
/// included, but the enforcer re-validates whatever endpoint is left here
/// once the chain completes — a hook cannot mark the request
/// pre-authorized.
#[derive(Debug, Clone, PartialEq, Eq)]
pub struct InterceptRequest {
    pub request: OutboundRequest,
    pub endpoint: ResolvedEndpoint,
}

impl InterceptRequest {
    /// Replaces the endpoint this request will be connected to; the
    /// replacement is still subject to the post-chain address
    /// classification.
    pub fn override_connect_endpoint(&mut self, endpoint: ResolvedEndpoint)
        ensures
            final(self).endpoint == endpoint,
            final(self).request == old(self).request,
    {
        self.endpoint = endpoint;
    }
}

/// What one interceptor hook decides: pass the (possibly rewritten)
/// envelope on, or answer the request directly — with a synthesized
/// response or error — bypassing the transport and every later hook.
#[derive(Debug, PartialEq, Eq)]
pub enum InterceptOutcome {
    ContinueWith(InterceptRequest),
    RespondWith(Result<HttpResponse, ErrorCode>),
}

} // verus!

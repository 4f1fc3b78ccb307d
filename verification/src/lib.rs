//! Egress control for outbound HTTP calls made by sandboxed components.
//!
//! Every outbound call is checked against an instance-scoped allow-list of
//! origin patterns, self-referencing targets are rewritten onto the
//! instance's configured self-request origin, an ordered interception chain
//! may rewrite or answer the request, and whatever connect endpoint is left
//! after the chain is classified against private/reserved address ranges
//! before any connection is authorized.
//!
//! - [`ip`] classifies concrete addresses as public or private/reserved.
//! - [`allow`] holds origin patterns and the pre-resolution allow-list check.
//! - [`parse`] and [`url`] parse IP literals, ports, patterns and hosts.
//! - [`request`] models requests and their declared targets.
//! - [`selfreq`] rewrites self-requests onto the self-request origin.
//! - [`intercept`] models the interception chain's envelope and outcomes.
//! - [`enforce`] walks the fixed enforcement order for each call.
//! - [`future`] is the settle-once handle for one in-flight call.
//! - [`deploy`] selects the external deployment plugin and its invocation.

pub mod allow;
pub mod deploy;
pub mod enforce;
pub mod errors;
pub mod future;
pub mod intercept;
pub mod ip;
pub mod parse;
pub mod request;
pub mod selfreq;
pub mod url;

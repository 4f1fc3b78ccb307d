use vstd::prelude::*;

use crate::errors::ErrorCode;
use crate::intercept::HttpResponse;

verus! {

/// How a call ends: a response, or one code from the closed error
/// taxonomy.
#[derive(Debug, Clone, PartialEq, Eq)]
pub enum CallOutcome {
    Success(HttpResponse),
    Failure(ErrorCode),
}

#[derive(Debug)]
enum FutureState {
    Pending,
    Settled(CallOutcome),
}

/// The handle for one in-flight outbound call. It moves from pending to
/// settled exactly once — `settle` demands a pending future — and taking
/// the outcome consumes the handle, so a settled future cannot be reused.
#[derive(Debug)]
pub struct OutboundCallFuture {
    state: FutureState,
}

impl OutboundCallFuture {
    /// The settled outcome, or nothing while the call is still in flight.
    pub closed spec fn spec_settled(&self) -> Option<CallOutcome> {
        match self.state {
            FutureState::Pending => None,
            FutureState::Settled(o) => Some(o),
        }
    }

    /// A handle for a call still in flight.
    pub fn pending() -> (f: OutboundCallFuture)
        ensures
            f.spec_settled() is None,
    {
        OutboundCallFuture { state: FutureState::Pending }
    }

    /// A handle already settled with `outcome`, as returned for failures
    /// detected before any connection is attempted.
    pub fn settled(outcome: CallOutcome) -> (f: OutboundCallFuture)
        ensures
            f.spec_settled() == Some(outcome),
    {
        OutboundCallFuture { state: FutureState::Settled(outcome) }
    }

    /// Non-blocking readiness: true exactly when the call has settled.
    pub fn is_ready(&self) -> (r: bool)
        ensures
            r == (self.spec_settled() is Some),
    {
        match &self.state {
            FutureState::Pending => false,
            FutureState::Settled(_) => true,
        }
    }

    /// Settles a pending call; a future settles exactly once.
    pub fn settle(&mut self, outcome: CallOutcome)
        requires
            old(self).spec_settled() is None,
        ensures
            final(self).spec_settled() == Some(outcome),
    {
        self.state = FutureState::Settled(outcome);
    }

    /// Takes the outcome of a settled call, consuming the handle.
    pub fn unwrap_ready(self) -> (r: CallOutcome)
        requires
            self.spec_settled() is Some,
        ensures
            Some(r) == self.spec_settled(),
    {
        match self.state {
            FutureState::Settled(o) => o,
            FutureState::Pending => {
                proof {
                    assert(false);
                }
                unreached()
            },
        }
    }
}

} // verus!

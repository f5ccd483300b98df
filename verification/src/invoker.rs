//! The call invoker's caller-visible surface.
//!
//! A call attempt is submitted as a [`CallRequest`] and answered, exactly
//! once, with a [`CallOutcome`]. The invoker performs no validation of the
//! request — that is the core client's business — and its outcome reflects
//! the core client's result exactly: success for success, and for a failure
//! the core's error description, verbatim. The relay's fate (still draining,
//! stopped by a UI refusal) never enters the outcome.

use vstd::prelude::*;

verus! {

/// One call request, immutable once submitted: where to call (address and
/// port) and as whom (callee and caller identities). No field is validated at
/// this layer.
#[derive(Clone)]
pub struct CallRequest {
    pub target_ip: String,
    pub target_port: u16,
    pub to_user: String,
    pub from_user: String,
}

/// The caller-visible outcome of one call attempt: a success marker, or the
/// core client's error description.
pub enum CallOutcome {
    Success,
    Failed(String),
}

impl CallOutcome {
    /// Whether this outcome is the success marker.
    pub fn is_success(&self) -> (b: bool)
        ensures
            b == (self is Success),
    {
        match self {
            CallOutcome::Success => true,
            CallOutcome::Failed(_) => false,
        }
    }
}

/// Translate the core client's call-start result into the caller-visible
/// outcome: success becomes the success marker, a failure carries the core's
/// error description unchanged. Nothing else ever decides the outcome.
pub fn outcome_of(result: Result<(), String>) -> (outcome: CallOutcome)
    ensures
        outcome == (match result {
            Ok(_) => CallOutcome::Success,
            Err(m) => CallOutcome::Failed(m),
        }),
{
    match result {
        Ok(_) => CallOutcome::Success,
        Err(m) => CallOutcome::Failed(m),
    }
}

} // verus!

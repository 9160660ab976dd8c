//! Health Prober and Bridge Command decision logic.
//!
//! One health probe is an HTTP GET against the companion's local health
//! endpoint with a short timeout. The transport itself is the host
//! application's job; it reports what happened as a [`ProbeOutcome`], and the
//! functions here decide what that outcome means. Every failure below a
//! response (connection refused, name resolution, timeout) is deliberately
//! absorbed into `false`: callers only ever learn a boolean.

use vstd::prelude::*;

verus! {

/// What one health probe observed: a response with its status code, a
/// transport error (connection refused, reset, name resolution, ...), or no
/// answer within the probe's timeout.
#[derive(Clone, Copy, Debug, PartialEq, Eq, Structural)]
pub enum ProbeOutcome {
    Response { status: u16 },
    TransportError,
    Timeout,
}

/// An HTTP status code counts as successful exactly when it is in the 2xx
/// class.
pub open spec fn status_is_success(status: u16) -> bool {
    200 <= status < 300
}

/// A probe reports the server healthy exactly when a response arrived in time
/// and carried a 2xx status; every other outcome is unhealthy.
pub open spec fn probe_healthy(outcome: ProbeOutcome) -> bool {
    match outcome {
        ProbeOutcome::Response { status } => status_is_success(status),
        ProbeOutcome::TransportError => false,
        ProbeOutcome::Timeout => false,
    }
}

/// Health Prober's verdict on one observed outcome.
pub fn interpret_probe(outcome: &ProbeOutcome) -> (healthy: bool)
    ensures
        healthy == probe_healthy(*outcome),
{
    match outcome {
        ProbeOutcome::Response { status } => 200 <= *status && *status < 300,
        ProbeOutcome::TransportError => false,
        ProbeOutcome::Timeout => false,
    }
}

/// Bridge Command: the one operation the front end may invoke. It reports the
/// probe's verdict and never fails; transport errors were already absorbed
/// into the outcome, so the result is always the success variant.
pub fn check_server_health(outcome: &ProbeOutcome) -> (r: Result<bool, String>)
    ensures
        r matches Ok(healthy) && healthy == probe_healthy(*outcome),
{
    Ok(interpret_probe(outcome))
}

} // verus!

//! One liveness check of the server, reduced to a binary verdict.

use vstd::prelude::*;

verus! {

/// Verdict of a single probe. Derived per call and never cached.
#[derive(Clone, Copy, Debug, PartialEq, Eq, Structural)]
pub enum HealthStatus {
    Healthy,
    Unhealthy,
}

/// What one request to the health endpoint came to.
#[derive(Clone, Copy, Debug, PartialEq, Eq, Structural)]
pub enum ProbeOutcome {
    /// The endpoint answered with this HTTP status code.
    Responded(u16),
    /// No connection was made, or the exchange broke off.
    TransportError,
    /// No answer arrived within the per-call timeout.
    TimedOut,
}

/// The 2xx class of HTTP status codes.
pub open spec fn is_success_code(code: u16) -> bool {
    200 <= code <= 299
}

/// The verdict that an outcome stands for: healthy exactly for an answer
/// in the 2xx class, unhealthy for everything else.
pub open spec fn health_of(outcome: ProbeOutcome) -> HealthStatus {
    match outcome {
        ProbeOutcome::Responded(code) => if is_success_code(code) {
            HealthStatus::Healthy
        } else {
            HealthStatus::Unhealthy
        },
        ProbeOutcome::TransportError => HealthStatus::Unhealthy,
        ProbeOutcome::TimedOut => HealthStatus::Unhealthy,
    }
}

/// A probe never fails and never tells more than one bit: whatever came
/// of the request, the verdict is one of the two, and it is `Healthy` for
/// an answer in the 2xx class and for nothing else.
pub proof fn verdict_is_binary(outcome: ProbeOutcome)
    ensures
        health_of(outcome) == HealthStatus::Healthy || health_of(outcome)
            == HealthStatus::Unhealthy,
        health_of(outcome) == HealthStatus::Healthy <==> (outcome matches ProbeOutcome::Responded(
            code,
        ) && 200 <= code <= 299),
{
}

/// Trusted: `reqwest::StatusCode::from_u16` followed by
/// `StatusCode::is_success`. The first accepts exactly the codes 100..=999;
/// the second holds exactly for 200..=299. Neither is proved here.
#[verifier::external_body]
fn status_class_success(code: u16) -> (r: Option<bool>)
    ensures
        r == (if 100 <= code <= 999 {
            Some(is_success_code(code))
        } else {
            None::<bool>
        }),
{
    match reqwest::StatusCode::from_u16(code) {
        Ok(status) => Some(status.is_success()),
        Err(_) => None,
    }
}

/// Normalizes a probe outcome. Transport errors, timeouts, codes outside
/// the 2xx class and numbers that are no status code at all collapse into
/// `Unhealthy`; the caller's only decision is whether to retry.
pub fn classify(outcome: ProbeOutcome) -> (status: HealthStatus)
    ensures
        status == health_of(outcome),
{
    match outcome {
        ProbeOutcome::Responded(code) => match status_class_success(code) {
            Some(true) => HealthStatus::Healthy,
            Some(false) => HealthStatus::Unhealthy,
            None => HealthStatus::Unhealthy,
        },
        ProbeOutcome::TransportError => HealthStatus::Unhealthy,
        ProbeOutcome::TimedOut => HealthStatus::Unhealthy,
    }
}

} // verus!

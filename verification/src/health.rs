//! The health probe: one request to the backend's health endpoint, and the
//! verdict on what came back. A probe is a single attempt; polling, backoff
//! and deadlines are the caller's.
use crate::http::{health_address, health_url, is_success, success_status, HttpMethod, HttpReply, HttpRequest};
use crate::text::{decimal, decimal_text, joined};
use vstd::prelude::*;

verus! {

/// Why a probe did not find the backend healthy.
#[derive(Clone, Debug, PartialEq, Eq)]
pub enum HealthError {
    /// The backend answered, with a status outside the success range.
    Unhealthy(u16),
    /// The backend could not be reached; carries the transport's reason.
    RequestFailed(String),
}

/// The text returned for a healthy backend.
pub open spec fn healthy_text() -> Seq<char> {
    "healthy"@
}

/// The message of a health error, as shown to the user.
pub open spec fn health_message(error: HealthError) -> Seq<char> {
    match error {
        HealthError::Unhealthy(status) => "Server returned status: "@ + decimal(status as nat),
        HealthError::RequestFailed(reason) => "Health check failed: "@ + reason@,
    }
}

/// Whether `verdict` is the verdict on `reply`: healthy exactly for a status
/// in the success range, unhealthy with the status for any other status, and
/// a failed request with the transport's reason when nothing came back.
pub open spec fn health_verdict(reply: HttpReply, verdict: Result<String, HealthError>) -> bool {
    match reply {
        HttpReply::Status(status) => if success_status(status) {
            verdict matches Ok(text) && text@ == healthy_text()
        } else {
            verdict == Err::<String, HealthError>(HealthError::Unhealthy(status))
        },
        HttpReply::Failed(reason) => verdict == Err::<String, HealthError>(
            HealthError::RequestFailed(reason),
        ),
    }
}

impl HealthError {
    /// The message of this error, as shown to the user.
    pub fn message(&self) -> (text: String)
        ensures
            text@ == health_message(*self),
    {
        match self {
            HealthError::Unhealthy(status) => {
                let numeral = decimal_text(*status as u32);
                joined("Server returned status: ", numeral.as_str())
            },
            HealthError::RequestFailed(reason) => joined("Health check failed: ", reason.as_str()),
        }
    }
}

/// The request of one health probe: a `GET` of the health endpoint.
pub fn health_request() -> (request: HttpRequest)
    ensures
        request.method == HttpMethod::Get,
        request.url@ == health_address(),
        request.body is None,
{
    HttpRequest { method: HttpMethod::Get, url: health_url(), body: None }
}

/// Judges the reply to one health probe.
pub fn check_server_health(reply: HttpReply) -> (verdict: Result<String, HealthError>)
    ensures
        health_verdict(reply, verdict),
{
    match reply {
        HttpReply::Status(status) => {
            if is_success(status) {
                Ok("healthy".to_owned())
            } else {
                Err(HealthError::Unhealthy(status))
            }
        },
        HttpReply::Failed(reason) => Err(HealthError::RequestFailed(reason)),
    }
}

} // verus!

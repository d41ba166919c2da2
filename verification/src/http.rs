//! The HTTP vocabulary shared by the health probe and the command proxy:
//! what the host is asked to send, what it reports back, and the fixed
//! addresses of the backend.
use crate::text::joined;
use vstd::prelude::*;

verus! {

/// The request methods this crate uses.
#[derive(Clone, Copy, Debug, PartialEq, Eq, Structural)]
pub enum HttpMethod {
    Get,
    Post,
}

/// One request for the host to send: exactly one exchange, no retry.
#[derive(Clone, Debug, PartialEq, Eq)]
pub struct HttpRequest {
    pub method: HttpMethod,
    pub url: String,
    /// The JSON body, where the request has one.
    pub body: Option<serde_json::Value>,
}

/// What came of sending a request: a response with its status code, or a
/// failure of the transport with its reason.
#[derive(Clone, Debug, PartialEq, Eq)]
pub enum HttpReply {
    Status(u16),
    Failed(String),
}

/// Where the backend listens: scheme, host and TCP port.
pub open spec fn backend_base() -> Seq<char> {
    "http://localhost:7095"@
}

/// The address of the backend's user interface.
pub open spec fn ui_address() -> Seq<char> {
    backend_base() + "/ui"@
}

/// The address of the backend's health endpoint.
pub open spec fn health_address() -> Seq<char> {
    backend_base() + "/health"@
}

/// The address of the backend's tool-invocation endpoint.
pub open spec fn tool_call_address() -> Seq<char> {
    backend_base() + "/api/mcp/tools/call"@
}

/// Whether `status` is in the success range, 200 to 299.
pub open spec fn success_status(status: u16) -> bool {
    200 <= status < 300
}

/// Whether `status` is in the success range, 200 to 299.
pub fn is_success(status: u16) -> (success: bool)
    ensures
        success == success_status(status),
{
    200 <= status && status < 300
}

/// The address of the backend's user interface.
pub fn get_server_url() -> (url: String)
    ensures
        url@ == ui_address(),
{
    joined("http://localhost:7095", "/ui")
}

/// The address of the backend's health endpoint.
pub fn health_url() -> (url: String)
    ensures
        url@ == health_address(),
{
    joined("http://localhost:7095", "/health")
}

/// The address of the backend's tool-invocation endpoint.
pub fn tool_call_url() -> (url: String)
    ensures
        url@ == tool_call_address(),
{
    joined("http://localhost:7095", "/api/mcp/tools/call")
}

} // verus!

//! The command proxy: a named tool and its arguments become one `POST` to the
//! backend's tool-invocation endpoint, and what comes back becomes a JSON
//! value or an error. The response's schema is the backend's business; it is
//! passed through untouched.
use crate::http::{
    success_status, is_success, tool_call_address, tool_call_url, HttpMethod, HttpReply,
    HttpRequest,
};
use crate::json::{
    json_view, json_views, list_value, new_object, no_members, object_entries, object_insert,
    object_value, text_value, Json,
};
use crate::text::{decimal, decimal_text, joined};
use vstd::prelude::*;

verus! {

/// `members` with `value` under `key` where there is a value, and `members`
/// unchanged where there is none: an absent argument leaves no trace.
pub open spec fn with_optional(
    members: Map<Seq<char>, Json>,
    key: Seq<char>,
    value: Option<Json>,
) -> Map<Seq<char>, Json> {
    match value {
        Some(present) => members.insert(key, present),
        None => members,
    }
}

/// The view of an optional JSON value.
pub open spec fn optional_view(value: Option<serde_json::Value>) -> Option<Json> {
    match value {
        Some(present) => Some(json_view(present)),
        None => None,
    }
}

/// An optional text as an optional JSON string.
pub open spec fn optional_text(text: Option<String>) -> Option<Json> {
    match text {
        Some(present) => Some(Json::Text(present@)),
        None => None,
    }
}

/// The JSON strings with the given texts, in order.
pub open spec fn text_items(texts: Seq<String>) -> Seq<Json> {
    texts.map_values(|text: String| Json::Text(text@))
}

/// The JSON array of strings with the given texts.
pub open spec fn text_list(texts: Seq<String>) -> Json {
    Json::List(text_items(texts))
}

/// The argument object of a tool invocation while it is being filled.
pub struct Arguments {
    members: serde_json::Map<String, serde_json::Value>,
}

impl View for Arguments {
    type V = Map<Seq<char>, Json>;

    closed spec fn view(&self) -> Map<Seq<char>, Json> {
        object_entries(self.members)
    }
}

impl Arguments {
    /// No arguments.
    pub fn new() -> (arguments: Self)
        ensures
            arguments@ == no_members(),
    {
        Arguments { members: new_object() }
    }

    /// Puts `value` under `key`, in place of any value already there.
    pub fn set(&mut self, key: &str, value: serde_json::Value)
        ensures
            final(self)@ == old(self)@.insert(key@, json_view(value)),
    {
        let _ = object_insert(&mut self.members, key.to_owned(), value);
    }

    /// Puts `value` under `key` where there is a value; does nothing where
    /// there is none.
    pub fn set_optional(&mut self, key: &str, value: Option<serde_json::Value>)
        ensures
            final(self)@ == with_optional(old(self)@, key@, optional_view(value)),
    {
        match value {
            Some(present) => self.set(key, present),
            None => {},
        }
    }

    /// Puts the JSON string `text` under `key`.
    pub fn set_text(&mut self, key: &str, text: String)
        ensures
            final(self)@ == old(self)@.insert(key@, Json::Text(text@)),
    {
        self.set(key, text_value(text));
    }

    /// Puts the JSON string `text` under `key` where there is a text.
    pub fn set_optional_text(&mut self, key: &str, text: Option<String>)
        ensures
            final(self)@ == with_optional(old(self)@, key@, optional_text(text)),
    {
        match text {
            Some(present) => self.set_text(key, present),
            None => {},
        }
    }

    /// The arguments as one JSON object.
    pub fn finish(self) -> (value: serde_json::Value)
        ensures
            json_view(value) == Json::Object(self@),
    {
        object_value(self.members)
    }
}

/// The JSON array of strings with the given texts.
pub fn text_list_value(texts: &Vec<String>) -> (value: serde_json::Value)
    ensures
        json_view(value) == text_list(texts@),
{
    let mut items: Vec<serde_json::Value> = Vec::new();
    let mut done: usize = 0;
    while done < texts.len()
        invariant
            done <= texts.len(),
            json_views(items@) == text_items(texts@.subrange(0, done as int)),
        decreases texts.len() - done,
    {
        let ghost before = items@;
        let item = text_value(texts[done].clone());
        items.push(item);
        proof {
            let earlier = texts@.subrange(0, done as int);
            let grown = texts@.subrange(0, done + 1);
            assert(items@ == before.push(item));
            assert(grown == earlier.push(texts@[done as int]));
            assert(json_views(items@) == json_views(before).push(json_view(item)));
            assert(text_items(grown) == text_items(earlier).push(Json::Text(texts@[done as int]@)));
        }
        done += 1;
    }
    assert(texts@.subrange(0, done as int) =~= texts@);
    list_value(items)
}

/// One named operation of the backend with its arguments. It lives for one
/// request and one response.
#[derive(Debug, PartialEq, Eq)]
pub struct ToolInvocation {
    pub name: String,
    pub arguments: serde_json::Value,
}

/// Why a tool invocation did not return a value. Neither is fatal: both are
/// handed to the caller as an ordinary result.
#[derive(Clone, Debug, PartialEq, Eq)]
pub enum ProxyError {
    /// The backend answered with a status outside the success range.
    ToolCallFailed(u16),
    /// No usable response arrived; carries the transport's reason.
    TransportFailed(String),
}

/// The body of the request that invokes `name` with `arguments`: the object
/// with exactly the members `name` and `arguments`.
pub open spec fn request_body(name: Seq<char>, arguments: Json) -> Json {
    Json::Object(no_members().insert("name"@, Json::Text(name)).insert("arguments"@, arguments))
}

/// Whether `request` is the one that carries `invocation`: a `POST` to the
/// tool-invocation endpoint whose body names the tool and holds its
/// arguments.
pub open spec fn carries(request: HttpRequest, invocation: ToolInvocation) -> bool {
    &&& request.method == HttpMethod::Post
    &&& request.url@ == tool_call_address()
    &&& request.body matches Some(body)
    &&& json_view(body) == request_body(invocation.name@, json_view(invocation.arguments))
}

/// The message of a proxy error, as shown to the user.
pub open spec fn proxy_message(error: ProxyError) -> Seq<char> {
    match error {
        ProxyError::ToolCallFailed(status) => "MCP tool call failed: "@ + decimal(status as nat),
        ProxyError::TransportFailed(reason) => "Failed to call MCP tool: "@ + reason@,
    }
}

/// The decision on the reply to a tool request: go on to the body exactly for
/// a status in the success range; fail with the status for any other status,
/// and with the transport's reason when nothing came back.
pub open spec fn reply_decision(reply: HttpReply) -> Result<(), ProxyError> {
    match reply {
        HttpReply::Status(status) => if success_status(status) {
            Ok(())
        } else {
            Err(ProxyError::ToolCallFailed(status))
        },
        HttpReply::Failed(reason) => Err(ProxyError::TransportFailed(reason)),
    }
}

/// The result of an invocation whose body the host read and decoded as
/// `body`: the decoded value as it is, or the reason why there is none.
pub open spec fn body_decision(body: Result<serde_json::Value, String>) -> Result<
    serde_json::Value,
    ProxyError,
> {
    match body {
        Ok(value) => Ok(value),
        Err(reason) => Err(ProxyError::TransportFailed(reason)),
    }
}

impl ProxyError {
    /// The message of this error, as shown to the user.
    pub fn message(&self) -> (text: String)
        ensures
            text@ == proxy_message(*self),
    {
        match self {
            ProxyError::ToolCallFailed(status) => {
                let numeral = decimal_text(*status as u32);
                joined("MCP tool call failed: ", numeral.as_str())
            },
            ProxyError::TransportFailed(reason) => joined(
                "Failed to call MCP tool: ",
                reason.as_str(),
            ),
        }
    }
}

impl ToolInvocation {
    /// The request that carries this invocation.
    pub fn into_request(self) -> (request: HttpRequest)
        ensures
            carries(request, self),
    {
        let mut body = Arguments::new();
        body.set_text("name", self.name);
        body.set("arguments", self.arguments);
        HttpRequest { method: HttpMethod::Post, url: tool_call_url(), body: Some(body.finish()) }
    }
}

/// The request that invokes the tool `name` with `arguments`.
pub fn call_mcp_tool(name: String, arguments: serde_json::Value) -> (request: HttpRequest)
    ensures
        carries(request, (ToolInvocation { name, arguments })),
{
    (ToolInvocation { name, arguments }).into_request()
}

/// Decides on the reply to a tool request: `Ok` tells the host to read and
/// decode the body, an error ends the invocation.
pub fn accept_reply(reply: HttpReply) -> (decision: Result<(), ProxyError>)
    ensures
        decision == reply_decision(reply),
{
    match reply {
        HttpReply::Status(status) => {
            if is_success(status) {
                Ok(())
            } else {
                Err(ProxyError::ToolCallFailed(status))
            }
        },
        HttpReply::Failed(reason) => Err(ProxyError::TransportFailed(reason)),
    }
}

/// Ends an invocation with what the host made of the response body.
pub fn accept_body(body: Result<serde_json::Value, String>) -> (result: Result<
    serde_json::Value,
    ProxyError,
>)
    ensures
        result == body_decision(body),
{
    match body {
        Ok(value) => Ok(value),
        Err(reason) => Err(ProxyError::TransportFailed(reason)),
    }
}

/// The body of an invocation without arguments has the two members `name`
/// and `arguments` and no other, the first the tool's name and the second
/// the empty object.
pub proof fn lemma_request_body_without_arguments(name: Seq<char>)
    ensures
        request_body(name, Json::Object(no_members())) matches Json::Object(members) && {
            &&& members.dom() =~= set!["name"@, "arguments"@]
            &&& members["name"@] == Json::Text(name)
            &&& members["arguments"@] == Json::Object(no_members())
        },
{
    reveal_strlit("name");
    reveal_strlit("arguments");
    let members = no_members().insert("name"@, Json::Text(name)).insert(
        "arguments"@,
        Json::Object(no_members()),
    );
    assert("name"@ != "arguments"@) by {
        assert("name"@.len() == 4);
        assert("arguments"@.len() == 9);
    }
    assert(members.dom() =~= set!["name"@, "arguments"@]);
}

} // verus!

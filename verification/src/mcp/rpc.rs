//! The JSON-RPC side of the server: which messages are answered, how each
//! method is handled, and what a refusal carries.

use vstd::prelude::*;
use vstd::string::*;

use serde_json::{from_str, Value};

use crate::docker::client::or_empty;
use crate::mcp::handlers::{
    error_message, plan_tool_call, plan_view, spec_plan, ToolAction, ToolArgs, ToolArgsView,
    ToolError,
};
use crate::mcp::tools::ToolDefinition;
use crate::text::{str_eq, trim, trimmed};

verus! {

/// The error code of every refusal the server sends.
pub const METHOD_NOT_FOUND_CODE: i64 = -32601;

/// How the server handles a request, by its method.
#[derive(PartialEq, Eq, Structural, Clone, Copy, Debug)]
pub enum RpcMethod {
    /// `initialize`: answered with the server's description.
    Initialize,
    /// `tools/list`: answered with the tool catalogue.
    ToolsList,
    /// `tools/call`: answered with the outcome of one tool call.
    ToolsCall,
    /// Any other method: refused.
    Unknown,
}

/// How a request with a given method is handled.
pub open spec fn spec_route(method: Seq<char>) -> RpcMethod {
    if method == "initialize"@ {
        RpcMethod::Initialize
    } else if method == "tools/list"@ {
        RpcMethod::ToolsList
    } else if method == "tools/call"@ {
        RpcMethod::ToolsCall
    } else {
        RpcMethod::Unknown
    }
}

/// How an incoming message is handled: `None` when it is not answered at all,
/// because it did not parse as JSON or carries no `id`. A message without a
/// string `method` is handled as one with the empty method.
pub open spec fn spec_classify(parsed: bool, has_id: bool, method: Option<Seq<char>>) -> Option<
    RpcMethod,
> {
    if !parsed || !has_id {
        None
    } else {
        Some(
            spec_route(
                match method {
                    Some(m) => m,
                    None => Seq::empty(),
                },
            ),
        )
    }
}

/// Decides how a request with the given method is handled.
pub fn route_method(method: &str) -> (res: RpcMethod)
    ensures
        res == spec_route(method@),
{
    if str_eq(method, "initialize") {
        RpcMethod::Initialize
    } else if str_eq(method, "tools/list") {
        RpcMethod::ToolsList
    } else if str_eq(method, "tools/call") {
        RpcMethod::ToolsCall
    } else {
        RpcMethod::Unknown
    }
}

/// Decides whether and how an incoming message is answered.
pub fn classify_message(parsed: bool, has_id: bool, method: Option<&str>) -> (res: Option<RpcMethod>)
    ensures
        res == spec_classify(parsed, has_id, method.deep_view()),
{
    if !parsed || !has_id {
        return None;
    }
    let m: &str = match method {
        Some(m) => m,
        None => "",
    };
    proof {
        reveal_strlit("");
    }
    assert(m@ == match method.deep_view() {
        Some(v) => v,
        None => Seq::<char>::empty(),
    });
    Some(route_method(m))
}

/// A refusal: the error object of a JSON-RPC reply.
#[derive(Debug, Clone, PartialEq, Eq)]
pub struct RpcError {
    pub code: i64,
    pub message: String,
}

impl RpcError {
    /// The refusal of a request whose method the server does not know.
    pub fn method_not_found(method: &str) -> (res: RpcError)
        ensures
            res.code == METHOD_NOT_FOUND_CODE,
            res.message@ == "Method not found: "@ + method@,
    {
        let mut message = String::from_str("Method not found: ");
        message.append(method);
        RpcError { code: METHOD_NOT_FOUND_CODE, message }
    }

    /// The refusal of a tool call that names no tool or lacks an argument.
    pub fn from_tool_error(e: ToolError) -> (res: RpcError)
        ensures
            res.code == METHOD_NOT_FOUND_CODE,
            res.message@ == error_message(e),
    {
        RpcError { code: METHOD_NOT_FOUND_CODE, message: e.message() }
    }

    /// The refusal of a tool call that the Docker daemon failed, carrying the
    /// description of the failure.
    pub fn from_failure(message: String) -> (res: RpcError)
        ensures
            res.code == METHOD_NOT_FOUND_CODE,
            res.message == message,
    {
        RpcError { code: METHOD_NOT_FOUND_CODE, message }
    }
}

/// What `initialize` answers with: the protocol revision and the server's name and version.
#[derive(Debug, Clone, PartialEq, Eq)]
pub struct ServerInfo {
    pub protocol_version: String,
    pub name: String,
    pub version: String,
}

/// The server's description, as `initialize` answers it.
pub fn server_info() -> (res: ServerInfo)
    ensures
        res.protocol_version@ == "2024-11-05"@,
        res.name@ == "mcp-docker-sentinel"@,
        res.version@ == "0.1.0"@,
{
    ServerInfo {
        protocol_version: String::from_str("2024-11-05"),
        name: String::from_str("mcp-docker-sentinel"),
        version: String::from_str("0.1.0"),
    }
}

/// What the server reads of one request line: whether it parsed as JSON, its
/// `id` as compact JSON text (to be echoed), its `method` if that is a string,
/// and, for a tool call, `params.name` if that is a string and the arguments
/// under `params.arguments`.
#[derive(Debug, Clone, PartialEq, Eq)]
pub struct RequestLine {
    pub parsed: bool,
    pub id: Option<String>,
    pub method: Option<String>,
    pub tool_name: Option<String>,
    pub args: ToolArgs,
}

/// The mathematical value of a [`RequestLine`].
pub struct RequestLineView {
    pub parsed: bool,
    pub id: Option<Seq<char>>,
    pub method: Option<Seq<char>>,
    pub tool_name: Option<Seq<char>>,
    pub args: ToolArgsView,
}

impl View for RequestLine {
    type V = RequestLineView;

    open spec fn view(&self) -> RequestLineView {
        RequestLineView {
            parsed: self.parsed,
            id: self.id.deep_view(),
            method: self.method.deep_view(),
            tool_name: self.tool_name.deep_view(),
            args: self.args@,
        }
    }
}

/// What `serde_json` makes of a request text, read field by field.
pub uninterp spec fn request_line_fields(text: Seq<char>) -> RequestLineView;

/// Parses a request text with `serde_json::from_str` into a JSON value and
/// reads the fields the server looks at, through `serde_json::Value`'s
/// indexing, `get`, `as_str`, `as_u64`, `as_bool` and `as_array`; the `id` is
/// written back as compact JSON text by `Value`'s `Display`. The contract
/// claims only that the result is the named function of the text.
#[verifier::external_body]
pub fn read_request_line(text: &str) -> (res: RequestLine)
    ensures
        res@ == request_line_fields(text@),
{
    let parsed = from_str::<Value>(text);
    let m = parsed.as_ref().unwrap_or(&Value::Null);
    let a = &m["params"]["arguments"];
    let s = |v: &Value| v.as_str().map(String::from);
    let args = ToolArgs {
        container_id: s(&a["container_id"]), tail: a["tail"].as_u64(), force: a["force"].as_bool(),
        image_id: s(&a["image_id"]), image: s(&a["image"]),
        command: a["command"].as_array().map(|v| v.iter().map(s).collect()),
    };
    RequestLine { parsed: parsed.is_ok(), id: m.get("id").map(Value::to_string), method: s(&m["method"]),
        tool_name: s(&m["params"]["name"]), args }
}

/// Reads one line of input: its whitespace trimmed, then parsed.
pub fn parse_request(line: &str) -> (res: RequestLine)
    ensures
        res@ == request_line_fields(trimmed(line@)),
{
    read_request_line(trim(line))
}

/// What the server does with one line of input.
#[derive(Debug, PartialEq, Eq)]
pub enum Request {
    /// Not answered: the line is not JSON or carries no `id`.
    Ignored,
    /// `initialize`, answered with the server's description.
    Initialize { id: String },
    /// `tools/list`, answered with the tool catalogue.
    ToolsList { id: String },
    /// `tools/call`, answered with the outcome of the planned operation, or
    /// refused where the call names no tool or lacks an argument.
    ToolsCall { id: String, plan: Result<ToolAction, ToolError> },
    /// Any other method, refused.
    Refused { id: String, error: RpcError },
}

/// What the server does with a line whose fields read as `f`.
pub open spec fn spec_request_outcome(f: RequestLineView, res: Request) -> bool {
    match spec_classify(f.parsed, f.id is Some, f.method) {
        None => res is Ignored,
        Some(RpcMethod::Initialize) => res is Initialize,
        Some(RpcMethod::ToolsList) => res is ToolsList,
        Some(RpcMethod::ToolsCall) => res matches Request::ToolsCall { plan, .. } && plan_view(plan)
            == spec_plan(or_empty(f.tool_name), f.args),
        Some(RpcMethod::Unknown) => res matches Request::Refused { error, .. } && error.code
            == METHOD_NOT_FOUND_CODE && error.message@ == "Method not found: "@ + or_empty(f.method),
    }
}

/// The `id` that the reply to a request echoes; none for a request that is
/// not answered.
pub open spec fn reply_id(r: Request) -> Option<Seq<char>> {
    match r {
        Request::Ignored => None,
        Request::Initialize { id } => Some(id@),
        Request::ToolsList { id } => Some(id@),
        Request::ToolsCall { id, .. } => Some(id@),
        Request::Refused { id, .. } => Some(id@),
    }
}

/// Decides what the server does with one request line, as read by
/// [`parse_request`]: whether it is answered, how its method is handled, and,
/// for a tool call, which Docker operation it asks for or why it is refused.
/// An answered request echoes the line's own `id`.
pub fn decide_request(req: RequestLine) -> (res: Request)
    ensures
        spec_request_outcome(req@, res),
        res !is Ignored ==> reply_id(res) == req@.id,
{
    let ghost f = req@;
    let ghost given_id = req@.id;
    let RequestLine { parsed, id, method, tool_name, args } = req;
    let route = {
        let m: Option<&str> = match &method {
            Some(m) => Some(m.as_str()),
            None => None,
        };
        assert(m.deep_view() == method.deep_view());
        classify_message(parsed, id.is_some(), m)
    };
    let id = match (route, id) {
        (Some(_), Some(id)) => id,
        _ => {
            return Request::Ignored;
        },
    };
    assert(given_id == Some(id@));
    proof {
        reveal_strlit("");
    }
    match route {
        Some(RpcMethod::Initialize) => Request::Initialize { id },
        Some(RpcMethod::ToolsList) => Request::ToolsList { id },
        Some(RpcMethod::ToolsCall) => {
            let name: &str = match &tool_name {
                Some(n) => n.as_str(),
                None => "",
            };
            assert(name@ == or_empty(f.tool_name));
            Request::ToolsCall { id, plan: plan_tool_call(name, &args) }
        },
        _ => {
            let m: &str = match &method {
                Some(m) => m.as_str(),
                None => "",
            };
            assert(m@ == or_empty(f.method));
            Request::Refused { id, error: RpcError::method_not_found(m) }
        },
    }
}

/// One item of the content that a tool call is answered with.
#[derive(Debug, Clone, PartialEq, Eq)]
pub struct ToolContent {
    pub kind: String,
    pub text: String,
}

/// The `result` of an answered request.
#[derive(Debug, PartialEq, Eq)]
pub enum ReplyBody {
    /// The server's description, for `initialize`.
    Initialize(ServerInfo),
    /// The tool catalogue, for `tools/list`.
    Tools(Vec<ToolDefinition>),
    /// The content of a tool call's answer.
    ToolResult(Vec<ToolContent>),
}

impl ReplyBody {
    /// The answer to a tool call: one content item of kind `text`.
    pub fn tool_text(text: String) -> (res: ReplyBody)
        ensures
            res matches ReplyBody::ToolResult(items) && items@.len() == 1 && items@[0].kind@
                == "text"@ && items@[0].text == text,
    {
        let mut items = Vec::new();
        items.push(ToolContent { kind: String::from_str("text"), text });
        ReplyBody::ToolResult(items)
    }
}

/// A JSON-RPC reply: protocol version, the request's `id` as JSON text, and
/// either a result or an error.
#[derive(Debug, PartialEq, Eq)]
pub struct RpcReply {
    pub jsonrpc: String,
    pub id: String,
    pub outcome: Result<ReplyBody, RpcError>,
}

impl RpcReply {
    /// The JSON-RPC 2.0 reply to the request with the given `id`.
    pub fn new(id: String, outcome: Result<ReplyBody, RpcError>) -> (res: RpcReply)
        ensures
            res.jsonrpc@ == "2.0"@,
            res.id == id,
            res.outcome == outcome,
    {
        RpcReply { jsonrpc: String::from_str("2.0"), id, outcome }
    }
}

} // verus!

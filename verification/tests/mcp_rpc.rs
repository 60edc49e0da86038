use mcp_docker_sentinel::mcp::handlers::{ToolAction, ToolArgs, ToolError};
use mcp_docker_sentinel::mcp::rpc::{
    classify_message, decide_request, parse_request, route_method, server_info, Request, RpcError,
    RpcMethod, RpcReply, ReplyBody, ToolContent, METHOD_NOT_FOUND_CODE,
};
use serde_json::Value;

#[test]
fn methods_are_routed() {
    assert_eq!(route_method("initialize"), RpcMethod::Initialize);
    assert_eq!(route_method("tools/list"), RpcMethod::ToolsList);
    assert_eq!(route_method("tools/call"), RpcMethod::ToolsCall);
    assert_eq!(route_method("tools/calls"), RpcMethod::Unknown);
    assert_eq!(route_method(""), RpcMethod::Unknown);
    assert_eq!(route_method("notifications/initialized"), RpcMethod::Unknown);
}

#[test]
fn messages_without_id_are_not_answered() {
    assert_eq!(classify_message(false, true, Some("initialize")), None);
    assert_eq!(classify_message(true, false, Some("initialize")), None);
    assert_eq!(classify_message(true, true, Some("initialize")), Some(RpcMethod::Initialize));
    assert_eq!(classify_message(true, true, None), Some(RpcMethod::Unknown));
}

#[test]
fn refusals_carry_the_method_not_found_code() {
    assert_eq!(METHOD_NOT_FOUND_CODE, -32601);
    let e = RpcError::method_not_found("ping");
    assert_eq!(e.code, -32601);
    assert_eq!(e.message, "Method not found: ping");
    assert_eq!(RpcError::method_not_found("").message, "Method not found: ");
    let e = RpcError::from_tool_error(ToolError::ToolNotFound);
    assert_eq!(e.code, -32601);
    assert_eq!(e.message, "Tool not found");
    let e = RpcError::from_failure("No such container: web".to_string());
    assert_eq!(e.code, -32601);
    assert_eq!(e.message, "No such container: web");
}

#[test]
fn server_describes_itself() {
    let info = server_info();
    assert_eq!(info.protocol_version, "2024-11-05");
    assert_eq!(info.name, "mcp-docker-sentinel");
    assert_eq!(info.version, "0.1.0");
}

#[test]
fn request_lines_are_read_field_by_field() {
    let r = parse_request(
        "  {\"jsonrpc\":\"2.0\",\"id\":7,\"method\":\"tools/call\",\"params\":{\"name\":\"get_logs\",\"arguments\":{\"container_id\":\"db\",\"tail\":5,\"force\":\"yes\",\"command\":[\"ls\",3]}}}\n",
    );
    assert!(r.parsed);
    assert_eq!(r.id.as_deref(), Some("7"));
    assert_eq!(r.method.as_deref(), Some("tools/call"));
    assert_eq!(r.tool_name.as_deref(), Some("get_logs"));
    assert_eq!(
        r.args,
        ToolArgs {
            container_id: Some("db".to_string()),
            tail: Some(5),
            force: None,
            image_id: None,
            image: None,
            command: Some(vec![Some("ls".to_string()), None]),
        }
    );
    let bad = parse_request("not json\n");
    assert!(!bad.parsed);
    assert_eq!(bad.id, None);
    assert_eq!(bad.method, None);
    let no_params = parse_request("{\"id\":\"a\",\"method\":5}");
    assert!(no_params.parsed);
    assert_eq!(no_params.id.as_deref(), Some("\"a\""));
    assert_eq!(no_params.method, None);
    assert_eq!(no_params.tool_name, None);
    assert_eq!(no_params.args, ToolArgs::default());
}

#[test]
fn lines_are_decided() {
    assert_eq!(decide_request(parse_request("garbage\n")), Request::Ignored);
    assert_eq!(decide_request(parse_request("{\"method\":\"initialize\"}\n")), Request::Ignored);
    assert_eq!(decide_request(parse_request("[1,2]\n")), Request::Ignored);
    assert_eq!(
        decide_request(parse_request("{\"id\":1,\"method\":\"initialize\"}\n")),
        Request::Initialize { id: "1".to_string() }
    );
    assert_eq!(
        decide_request(parse_request("{\"id\":null,\"method\":\"tools/list\"}")),
        Request::ToolsList { id: "null".to_string() }
    );
    assert_eq!(
        decide_request(parse_request("{\"id\":2,\"method\":\"ping\"}")),
        Request::Refused { id: "2".to_string(), error: RpcError::method_not_found("ping") }
    );
    assert_eq!(
        decide_request(parse_request("{\"id\":2}")),
        Request::Refused { id: "2".to_string(), error: RpcError::method_not_found("") }
    );
    assert_eq!(
        decide_request(parse_request(
            "{\"id\":3,\"method\":\"tools/call\",\"params\":{\"name\":\"stop_container\",\"arguments\":{\"container_id\":\"web\"}}}"
        )),
        Request::ToolsCall {
            id: "3".to_string(),
            plan: Ok(ToolAction::StopContainer { container_id: "web".to_string(), timeout_seconds: 10 }),
        }
    );
    assert_eq!(
        decide_request(parse_request("{\"id\":4,\"method\":\"tools/call\"}")),
        Request::ToolsCall { id: "4".to_string(), plan: Err(ToolError::ToolNotFound) }
    );
    assert_eq!(
        decide_request(parse_request("{\"id\":5,\"method\":\"tools/call\",\"params\":{\"name\":\"get_logs\"}}")),
        Request::ToolsCall { id: "5".to_string(), plan: Err(ToolError::MissingId) }
    );
}

#[test]
fn answered_requests_echo_their_id() {
    let line = "{\"id\": {\"k\": [1, \"x\"]}, \"method\": \"tools/list\"}";
    let req = parse_request(line);
    assert_eq!(req.id.as_deref(), Some("{\"k\":[1,\"x\"]}"));
    let id = req.id.clone().unwrap();
    assert_eq!(decide_request(req), Request::ToolsList { id });
    let line = "{\"id\":\"abc\",\"method\":\"nope\"}";
    match decide_request(parse_request(line)) {
        Request::Refused { id, error } => {
            assert_eq!(id, "\"abc\"");
            assert_eq!(error.code, -32601);
        }
        other => panic!("unexpected {:?}", other),
    }
    let echoed: Value = serde_json::from_str("{\"k\":[1,\"x\"]}").unwrap();
    let sent: Value = serde_json::from_str("{\"k\": [1, \"x\"]}").unwrap();
    assert_eq!(echoed, sent);
}

#[test]
fn replies_carry_version_id_and_outcome() {
    let r = RpcReply::new("7".to_string(), Err(RpcError::method_not_found("x")));
    assert_eq!(r.jsonrpc, "2.0");
    assert_eq!(r.id, "7");
    assert_eq!(r.outcome, Err(RpcError::method_not_found("x")));
    let body = ReplyBody::tool_text("done".to_string());
    assert_eq!(
        body,
        ReplyBody::ToolResult(vec![ToolContent { kind: "text".to_string(), text: "done".to_string() }])
    );
    let r = RpcReply::new("null".to_string(), Ok(ReplyBody::Initialize(server_info())));
    assert_eq!(r.jsonrpc, "2.0");
    assert_eq!(r.outcome, Ok(ReplyBody::Initialize(server_info())));
}

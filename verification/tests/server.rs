use iii_mcp::json::{JsonMember, JsonNumber, JsonValue};
use iii_mcp::server::{
    route_of, Action, JsonRpcOutcome, JsonRpcRequest, JsonRpcResponse, McpServer, Route, Step,
    INTERNAL_ERROR, METHOD_NOT_FOUND, PARSE_ERROR,
};
use iii_mcp::codec::parse_json;
use iii_mcp::transport::{LineAction, LineEvent, StdioTransport};

fn text(s: &str) -> JsonValue {
    JsonValue::Str(s.to_string())
}

fn member(key: &str, value: JsonValue) -> JsonMember {
    JsonMember { key: key.to_string(), value }
}

fn request(id: u64, method: &str) -> JsonRpcRequest {
    JsonRpcRequest {
        id: Some(JsonValue::Number(JsonNumber::PosInt(id))),
        method: method.to_string(),
        params: None,
    }
}

fn id(n: u64) -> Option<JsonValue> {
    Some(JsonValue::Number(JsonNumber::PosInt(n)))
}

fn response(step: Step) -> JsonRpcResponse {
    match step {
        Step::Respond(r) => r,
        Step::Run { .. } => panic!("expected a response"),
    }
}

#[test]
fn guarded_requests_are_refused_before_initialize() {
    let mut server = McpServer::new("0.1.0");
    assert!(!server.is_initialized());
    for method in ["tools/list", "tools/call", "resources/list", "resources/read"] {
        let r = response(server.handle_request(request(1, method)));
        assert_eq!(r.jsonrpc, "2.0");
        assert_eq!(r.id, id(1));
        assert_eq!(
            r.outcome,
            JsonRpcOutcome::Error { code: INTERNAL_ERROR, message: "Server not initialized".to_string() }
        );
    }
    assert!(!server.is_initialized());
}

#[test]
fn initialize_answers_and_initializes() {
    let mut server = McpServer::new("0.1.0");
    let r = response(server.handle_request(request(7, "initialize")));
    assert!(server.is_initialized());
    let expected = JsonValue::Object(vec![
        member("protocolVersion", text("2024-11-05")),
        member(
            "capabilities",
            JsonValue::Object(vec![
                member("tools", JsonValue::Object(vec![])),
                member("resources", JsonValue::Object(vec![])),
            ]),
        ),
        member(
            "serverInfo",
            JsonValue::Object(vec![member("name", text("iii-mcp")), member("version", text("0.1.0"))]),
        ),
    ]);
    assert_eq!(r, JsonRpcResponse::success(id(7), expected));
}

#[test]
fn guarded_requests_run_after_initialize() {
    let mut server = McpServer::new("0.1.0");
    server.handle_request(request(1, "initialize"));
    let cases = [
        ("tools/list", Action::ToolsList),
        ("tools/call", Action::ToolsCall),
        ("resources/list", Action::ResourcesList),
        ("resources/read", Action::ResourcesRead),
    ];
    for (method, action) in cases {
        let req = JsonRpcRequest {
            id: Some(text("req-2")),
            method: method.to_string(),
            params: Some(JsonValue::Object(vec![member("uri", text("iii://functions"))])),
        };
        let step = server.handle_request(req);
        assert_eq!(
            step,
            Step::Run {
                action,
                id: Some(text("req-2")),
                params: Some(JsonValue::Object(vec![member("uri", text("iii://functions"))])),
            }
        );
    }
    assert!(server.is_initialized());
}

#[test]
fn initialized_notice_does_not_initialize() {
    let mut server = McpServer::new("0.1.0");
    let r = response(server.handle_request(request(3, "notifications/initialized")));
    assert_eq!(r, JsonRpcResponse::success(id(3), JsonValue::Null));
    assert!(!server.is_initialized());
}

#[test]
fn ping_and_templates_need_no_initialize() {
    let mut server = McpServer::new("0.1.0");
    let r = response(server.handle_request(request(4, "ping")));
    assert_eq!(r, JsonRpcResponse::success(id(4), JsonValue::Object(vec![])));
    let r = response(server.handle_request(request(5, "resources/templates/list")));
    assert_eq!(
        r,
        JsonRpcResponse::success(
            id(5),
            JsonValue::Object(vec![member("resourceTemplates", JsonValue::Array(vec![]))])
        )
    );
    assert!(!server.is_initialized());
}

#[test]
fn unknown_method_is_not_found() {
    let mut server = McpServer::new("0.1.0");
    server.handle_request(request(1, "initialize"));
    let r = response(server.handle_request(request(9, "tools/delete")));
    assert_eq!(r.id, id(9));
    assert_eq!(
        r.outcome,
        JsonRpcOutcome::Error { code: METHOD_NOT_FOUND, message: "Unknown method: tools/delete".to_string() }
    );
    assert_eq!(METHOD_NOT_FOUND, -32601);
    assert_eq!(INTERNAL_ERROR, -32603);
}

#[test]
fn initialized_server_stays_initialized() {
    let mut server = McpServer::new("0.1.0");
    server.handle_request(request(1, "initialize"));
    for method in ["ping", "bogus", "notifications/initialized", "initialize", "tools/list"] {
        server.handle_request(request(2, method));
        assert!(server.is_initialized());
    }
}

#[test]
fn routes_of_methods() {
    assert_eq!(route_of("initialize"), Route::Initialize);
    assert_eq!(route_of("notifications/initialized"), Route::InitializedNotice);
    assert_eq!(route_of("tools/call"), Route::Guarded(Action::ToolsCall));
    assert_eq!(route_of("resources/templates/list"), Route::TemplatesList);
    assert_eq!(route_of("ping"), Route::Ping);
    assert_eq!(route_of("Ping"), Route::Unknown);
    assert_eq!(route_of(""), Route::Unknown);
}

#[test]
fn parse_failure_response() {
    let r = JsonRpcResponse::parse_failure("expected value at line 1 column 1");
    assert_eq!(r.id, None);
    assert_eq!(
        r.outcome,
        JsonRpcOutcome::Error {
            code: PARSE_ERROR,
            message: "Parse error: expected value at line 1 column 1".to_string()
        }
    );
    assert_eq!(PARSE_ERROR, -32700);
}

#[test]
fn blank_lines_are_skipped() {
    assert!(StdioTransport::is_blank_line(""));
    assert!(StdioTransport::is_blank_line("  \t\r\n"));
    assert!(StdioTransport::is_blank_line("\u{a0}\u{3000}"));
    assert!(!StdioTransport::is_blank_line(" {\"id\":1} "));
    assert!(!StdioTransport::is_blank_line("x"));
}

#[test]
fn trim_removes_outer_white_space() {
    assert_eq!(StdioTransport::trim("  {\"id\": 1} \r\n"), "{\"id\": 1}");
    assert_eq!(StdioTransport::trim("\u{3000}a b\u{a0}"), "a b");
    assert_eq!(StdioTransport::trim(" \t "), "");
    assert_eq!(StdioTransport::trim("x"), "x");
}

#[test]
fn parse_json_reads_documents() {
    assert_eq!(
        parse_json("{\"id\": 3, \"method\": \"ping\", \"x\": [1.5, -1, null]}"),
        Ok(JsonValue::Object(vec![
            member("id", JsonValue::Number(JsonNumber::PosInt(3))),
            member("method", text("ping")),
            member(
                "x",
                JsonValue::Array(vec![
                    JsonValue::Number(JsonNumber::Float("1.5".to_string())),
                    JsonValue::Number(JsonNumber::NegInt(-1)),
                    JsonValue::Null,
                ]),
            ),
        ]))
    );
    assert_eq!(parse_json("{"), Err("EOF while parsing an object at line 1 column 1".to_string()));
}

#[test]
fn line_events_lead_to_actions() {
    assert!(matches!(StdioTransport::on_event(LineEvent::Closed), LineAction::Stop));
    assert!(matches!(StdioTransport::on_event(LineEvent::ReadFailed), LineAction::Stop));
    assert!(matches!(StdioTransport::on_event(LineEvent::Line(" \n".to_string())), LineAction::Skip));
    match StdioTransport::on_event(LineEvent::Line("  {\"method\":\"ping\"}\n".to_string())) {
        LineAction::Handle(body) => {
            assert_eq!(body, JsonValue::Object(vec![member("method", text("ping"))]))
        }
        _ => panic!("expected a message"),
    }
    match StdioTransport::on_event(LineEvent::Line("not json\n".to_string())) {
        LineAction::Respond(r) => {
            assert_eq!(r.id, None);
            assert_eq!(
                r.outcome,
                JsonRpcOutcome::Error {
                    code: PARSE_ERROR,
                    message: "Parse error: expected ident at line 1 column 2".to_string()
                }
            );
        }
        _ => panic!("expected a parse error"),
    }
}

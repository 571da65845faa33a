use iii_mcp::json::{JsonMember, JsonNumber, JsonValue};
use iii_mcp::tools::{
    default_schema, FunctionInfo, McpTool, ToolCallParams, ToolCallResult, ToolContent,
    ToolInvocation, ToolsHandler,
};

fn text(s: &str) -> JsonValue {
    JsonValue::Str(s.to_string())
}

fn member(key: &str, value: JsonValue) -> JsonMember {
    JsonMember { key: key.to_string(), value }
}

fn expected_default_schema() -> JsonValue {
    JsonValue::Object(vec![
        member("type", text("object")),
        member("properties", JsonValue::Object(vec![])),
    ])
}

fn only_text(r: &ToolCallResult) -> &str {
    assert_eq!(r.content.len(), 1);
    match &r.content[0] {
        ToolContent::Text { text } => text.as_str(),
    }
}

#[test]
fn function_to_tool_turns_dots_into_underscores() {
    let schema = JsonValue::Object(vec![member(
        "properties",
        JsonValue::Object(vec![member("key", JsonValue::Object(vec![member("type", text("string"))]))]),
    )]);
    let func = FunctionInfo {
        function_path: "state.get".to_string(),
        description: Some("Read a value".to_string()),
        request_format: Some(schema),
    };
    let tool = ToolsHandler::function_to_tool(&func);
    assert_eq!(tool.name, "state_get");
    assert_eq!(tool.description, Some("Read a value".to_string()));
    assert_eq!(Some(tool.input_schema), func.request_format);
}

#[test]
fn function_to_tool_gives_default_schema() {
    let func = FunctionInfo {
        function_path: "engine.workers.list".to_string(),
        description: None,
        request_format: None,
    };
    let tool = ToolsHandler::function_to_tool(&func);
    assert_eq!(
        tool,
        McpTool {
            name: "engine_workers_list".to_string(),
            description: None,
            input_schema: expected_default_schema(),
        }
    );
    assert_eq!(default_schema(), expected_default_schema());
}

#[test]
fn function_to_tool_keeps_non_ascii_characters() {
    let func = FunctionInfo {
        function_path: "café.menü".to_string(),
        description: None,
        request_format: Some(JsonValue::Number(JsonNumber::NegInt(-3))),
    };
    let tool = ToolsHandler::function_to_tool(&func);
    assert_eq!(tool.name, "café_menü");
    assert_eq!(tool.input_schema, JsonValue::Number(JsonNumber::NegInt(-3)));
}

#[test]
fn list_describes_each_function_in_order() {
    let handler = ToolsHandler::new();
    let functions = vec![
        FunctionInfo { function_path: "a.b".to_string(), description: None, request_format: None },
        FunctionInfo {
            function_path: "emit".to_string(),
            description: Some("Emit an event".to_string()),
            request_format: Some(JsonValue::Null),
        },
    ];
    let result = handler.list(Ok(functions));
    assert_eq!(result.tools.len(), 2);
    assert_eq!(result.tools[0].name, "a_b");
    assert_eq!(result.tools[0].input_schema, expected_default_schema());
    assert_eq!(result.tools[1].name, "emit");
    assert_eq!(result.tools[1].description, Some("Emit an event".to_string()));
    assert_eq!(result.tools[1].input_schema, JsonValue::Null);
}

#[test]
fn list_is_empty_when_listing_fails() {
    let handler = ToolsHandler::new();
    let result = handler.list(Err("iii is not connected".to_string()));
    assert!(result.tools.is_empty());
}

#[test]
fn call_without_params_is_an_error() {
    let handler = ToolsHandler::new();
    let answer = handler.call(None).unwrap_err();
    assert!(answer.is_error);
    assert_eq!(only_text(&answer), "Missing params");
}

#[test]
fn call_with_unreadable_params_is_an_error() {
    let handler = ToolsHandler::new();
    let answer = handler.call(Some(Err("missing field `name`".to_string()))).unwrap_err();
    assert!(answer.is_error);
    assert_eq!(only_text(&answer), "Invalid params: missing field `name`");
}

#[test]
fn call_turns_underscores_into_dots() {
    let handler = ToolsHandler::new();
    let args = JsonValue::Object(vec![member("key", text("k1"))]);
    let params = ToolCallParams { name: "state_get".to_string(), arguments: args };
    let invocation = handler.call(Some(Ok(params))).unwrap();
    assert_eq!(
        invocation,
        ToolInvocation {
            function_path: "state.get".to_string(),
            arguments: JsonValue::Object(vec![member("key", text("k1"))]),
        }
    );
}

#[test]
fn call_finished_renders_the_result() {
    let handler = ToolsHandler::new();
    let result = JsonValue::Object(vec![
        member("ok", JsonValue::Bool(true)),
        member("n", JsonValue::Number(JsonNumber::NegInt(-2))),
    ]);
    let answer = handler.call_finished(Ok(result));
    assert!(!answer.is_error);
    assert_eq!(only_text(&answer), "{\n  \"n\": -2,\n  \"ok\": true\n}");
}

#[test]
fn call_finished_renders_plain_values() {
    let handler = ToolsHandler::new();
    let answer = handler.call_finished(Ok(text("done")));
    assert_eq!(only_text(&answer), "\"done\"");
    let answer = handler.call_finished(Ok(JsonValue::Array(vec![])));
    assert_eq!(only_text(&answer), "[]");
    let answer = handler.call_finished(Ok(JsonValue::Number(JsonNumber::Float("2.5".to_string()))));
    assert_eq!(only_text(&answer), "2.5");
}

#[test]
fn call_finished_reports_the_failure() {
    let handler = ToolsHandler::new();
    let answer = handler.call_finished(Err("invocation timed out".to_string()));
    assert!(answer.is_error);
    assert_eq!(only_text(&answer), "Error: invocation timed out");
}

#[test]
fn listed_tool_calls_its_function() {
    let handler = ToolsHandler::new();
    for path in ["engine.functions.list", "state.update", "emit"] {
        let func = FunctionInfo { function_path: path.to_string(), description: None, request_format: None };
        let tool = ToolsHandler::function_to_tool(&func);
        assert!(!tool.name.contains('.'));
        let params = ToolCallParams { name: tool.name, arguments: JsonValue::Null };
        let invocation = handler.call(Some(Ok(params))).unwrap();
        assert_eq!(invocation.function_path, path);
    }
}

#[test]
fn listed_tool_with_underscore_calls_another_path() {
    let handler = ToolsHandler::new();
    let func = FunctionInfo { function_path: "my_fn.run".to_string(), description: None, request_format: None };
    let tool = ToolsHandler::function_to_tool(&func);
    assert_eq!(tool.name, "my_fn_run");
    let params = ToolCallParams { name: tool.name, arguments: JsonValue::Null };
    let invocation = handler.call(Some(Ok(params))).unwrap();
    assert_eq!(invocation.function_path, "my.fn.run");
}

#[test]
fn duplicate_copies_every_part() {
    let doc = JsonValue::Array(vec![
        JsonValue::Bool(true),
        JsonValue::Number(JsonNumber::PosInt(7)),
        JsonValue::Number(JsonNumber::Float("1.5".to_string())),
        JsonValue::Object(vec![member("x", JsonValue::Array(vec![text("y"), JsonValue::Null]))]),
    ]);
    assert_eq!(doc.duplicate(), doc);
}

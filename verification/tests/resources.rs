use iii_mcp::json::{JsonMember, JsonValue};
use iii_mcp::resources::{
    ReadReply, ReadStep, ResourceContent, ResourceReadParams, ResourceReadResult,
    ResourceSource, ResourcesHandler,
};

fn text(s: &str) -> JsonValue {
    JsonValue::Str(s.to_string())
}

fn member(key: &str, value: JsonValue) -> JsonMember {
    JsonMember { key: key.to_string(), value }
}

fn read_uri(uri: &str) -> ReadStep {
    ResourcesHandler::new().read(Some(Ok(ResourceReadParams { uri: uri.to_string() })))
}

#[test]
fn list_gives_the_four_resources() {
    let result = ResourcesHandler::new().list();
    let expected = [
        ("iii://functions", "Functions", "All registered iii-engine functions"),
        ("iii://workers", "Workers", "Connected iii-engine workers"),
        ("iii://triggers", "Triggers", "Registered iii-engine triggers"),
        (
            "iii://context",
            "Context",
            "Runtime context available to functions (logging, state, events, tracing)",
        ),
    ];
    assert_eq!(result.resources.len(), 4);
    for (r, (uri, name, description)) in result.resources.iter().zip(expected.iter()) {
        assert_eq!(r.uri, *uri);
        assert_eq!(r.name, *name);
        assert_eq!(r.description.as_deref(), Some(*description));
        assert_eq!(r.mime_type.as_deref(), Some("application/json"));
    }
}

#[test]
fn every_listed_resource_is_readable() {
    let result = ResourcesHandler::new().list();
    let sources = [
        ResourceSource::Functions,
        ResourceSource::Workers,
        ResourceSource::Triggers,
        ResourceSource::Context,
    ];
    for (r, source) in result.resources.iter().zip(sources.iter()) {
        match read_uri(&r.uri) {
            ReadStep::Fetch { uri, source: s } => {
                assert_eq!(uri, r.uri);
                assert_eq!(s, *source);
            }
            ReadStep::Answer(ReadReply::Contents(c)) => {
                assert_eq!(*source, ResourceSource::Context);
                assert_eq!(c.contents[0].uri, r.uri);
            }
            ReadStep::Answer(ReadReply::Error(e)) => panic!("listed resource not readable: {}", e),
        }
    }
}

#[test]
fn read_without_params_is_an_error() {
    let step = ResourcesHandler::new().read(None);
    assert_eq!(step, ReadStep::Answer(ReadReply::Error("Missing params".to_string())));
}

#[test]
fn read_with_unreadable_params_is_an_error() {
    let step = ResourcesHandler::new().read(Some(Err("missing field `uri`".to_string())));
    assert_eq!(
        step,
        ReadStep::Answer(ReadReply::Error("Invalid params: missing field `uri`".to_string()))
    );
}

#[test]
fn read_of_unknown_uri_is_an_error() {
    assert_eq!(
        read_uri("iii://nothing"),
        ReadStep::Answer(ReadReply::Error("Unknown resource: iii://nothing".to_string()))
    );
    assert_eq!(
        read_uri("iii://Functions"),
        ReadStep::Answer(ReadReply::Error("Unknown resource: iii://Functions".to_string()))
    );
}

#[test]
fn read_of_context_answers_its_document() {
    let expected = "{\n  \"capabilities\": {\n    \"events\": {\n      \"description\": \"Event publishing\",\n      \"tools\": [\n        \"emit\",\n        \"publish\"\n      ]\n    },";
    match read_uri("iii://context") {
        ReadStep::Answer(ReadReply::Contents(c)) => {
            assert_eq!(c.contents.len(), 1);
            assert_eq!(c.contents[0].uri, "iii://context");
            assert_eq!(c.contents[0].mime_type.as_deref(), Some("application/json"));
            let text = c.contents[0].text.clone().unwrap();
            assert!(text.starts_with(expected), "{}", text);
            assert!(text.contains("\"description\": \"Runtime context available to functions during execution\""));
            assert!(text.ends_with("\n}"));
        }
        other => panic!("unexpected {:?}", other),
    }
}

#[test]
fn read_finished_gives_the_content() {
    let reply = ResourcesHandler::new().read_finished(
        "iii://workers".to_string(),
        ResourceSource::Workers,
        Ok("[]".to_string()),
    );
    assert_eq!(
        reply,
        ReadReply::Contents(ResourceReadResult {
            contents: vec![ResourceContent {
                uri: "iii://workers".to_string(),
                mime_type: Some("application/json".to_string()),
                text: Some("[]".to_string()),
            }],
        })
    );
}

#[test]
fn read_finished_reports_each_failure() {
    let handler = ResourcesHandler::new();
    let cases = [
        (ResourceSource::Functions, "Failed to list functions: iii is not connected"),
        (ResourceSource::Workers, "Failed to list workers: iii is not connected"),
        (ResourceSource::Triggers, "Failed to list triggers: iii is not connected"),
    ];
    for (source, message) in cases {
        let reply = handler.read_finished(
            "iii://x".to_string(),
            source,
            Err("iii is not connected".to_string()),
        );
        assert_eq!(reply, ReadReply::Error(message.to_string()));
    }
}

#[test]
fn context_document_describes_the_capabilities() {
    let tools = |names: &[&str]| JsonValue::Array(names.iter().map(|n| text(n)).collect());
    let capability = |description: &str, names: &[&str]| {
        JsonValue::Object(vec![member("description", text(description)), member("tools", tools(names))])
    };
    let expected = JsonValue::Object(vec![
        member("description", text("Runtime context available to functions during execution")),
        member(
            "capabilities",
            JsonValue::Object(vec![
                member(
                    "logger",
                    capability(
                        "Logging capabilities",
                        &[
                            "engine_log_info",
                            "engine_log_debug",
                            "engine_log_warn",
                            "engine_log_error",
                            "engine_log_trace",
                        ],
                    ),
                ),
                member(
                    "state",
                    capability(
                        "Persistent data access",
                        &["state_get", "state_set", "state_delete", "state_update", "state_list"],
                    ),
                ),
                member("events", capability("Event publishing", &["emit", "publish"])),
                member(
                    "tracing",
                    capability(
                        "Distributed tracing and baggage",
                        &["engine_baggage_get", "engine_baggage_set", "engine_baggage_getAll"],
                    ),
                ),
            ]),
        ),
    ]);
    assert_eq!(ResourcesHandler::context_document(), expected);
}

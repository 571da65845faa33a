//! The resources side of the server: the fixed list of resources, and the
//! answers to reading one.

use vstd::prelude::*;
use crate::codec::{pretty_json, render_pretty};
use crate::json::{JsonMember, JsonSpec, JsonValue, members_view, push_member};
use crate::text::{join, owned};

verus! {

/// An MCP resource, as listed to clients.
#[derive(Debug, PartialEq, Eq)]
pub struct McpResource {
    pub uri: String,
    pub name: String,
    pub description: Option<String>,
    pub mime_type: Option<String>,
}

/// The answer to `resources/list`.
#[derive(Debug, PartialEq, Eq)]
pub struct ResourcesListResult {
    pub resources: Vec<McpResource>,
}

/// The parameters of `resources/read`.
#[derive(Debug, PartialEq, Eq)]
pub struct ResourceReadParams {
    pub uri: String,
}

/// The content of one read resource.
#[derive(Debug, PartialEq, Eq)]
pub struct ResourceContent {
    pub uri: String,
    pub mime_type: Option<String>,
    pub text: Option<String>,
}

/// The answer to a successful `resources/read`.
#[derive(Debug, PartialEq, Eq)]
pub struct ResourceReadResult {
    pub contents: Vec<ResourceContent>,
}

/// Where the text of a resource comes from.
#[derive(PartialEq, Eq, Structural, Clone, Copy, Debug)]
pub enum ResourceSource {
    /// The engine's list of functions.
    Functions,
    /// The engine's list of connected workers.
    Workers,
    /// The engine's list of triggers.
    Triggers,
    /// The document that `ResourcesHandler::context_document` gives.
    Context,
}

/// The answer to `resources/read`: the contents, or an error object
/// `{"error": message}`.
#[derive(Debug, PartialEq, Eq)]
pub enum ReadReply {
    Contents(ResourceReadResult),
    Error(String),
}

/// What `resources/read` asks for after reading its parameters.
#[derive(Debug, PartialEq, Eq)]
pub enum ReadStep {
    /// The answer, with nothing more to do.
    Answer(ReadReply),
    /// Ask the engine for the list that `source` names, render it, and hand
    /// the text (or the reason it failed) to `ResourcesHandler::read_finished`.
    Fetch { uri: String, source: ResourceSource },
}

/// Serves `resources/list` and `resources/read`.
#[derive(Debug, PartialEq, Eq)]
pub struct ResourcesHandler {}

/// The resources listed, in order: uri, name and description of each.
pub open spec fn listed_resources() -> Seq<(Seq<char>, Seq<char>, Seq<char>)> {
    seq![
        ("iii://functions"@, "Functions"@, "All registered iii-engine functions"@),
        ("iii://workers"@, "Workers"@, "Connected iii-engine workers"@),
        ("iii://triggers"@, "Triggers"@, "Registered iii-engine triggers"@),
        ("iii://context"@, "Context"@,
            "Runtime context available to functions (logging, state, events, tracing)"@),
    ]
}

/// The mime type of every resource.
pub open spec fn json_mime() -> Seq<char> {
    "application/json"@
}

/// `r` is the resource with the given uri, name and description.
pub open spec fn is_listed_as(r: McpResource, entry: (Seq<char>, Seq<char>, Seq<char>)) -> bool {
    &&& r.uri@ == entry.0
    &&& r.name@ == entry.1
    &&& r.description matches Some(d) && d@ == entry.2
    &&& r.mime_type matches Some(m) && m@ == json_mime()
}

/// The resource that a uri names, if any.
pub open spec fn source_of(uri: Seq<char>) -> Option<ResourceSource> {
    if uri == "iii://functions"@ {
        Some(ResourceSource::Functions)
    } else if uri == "iii://workers"@ {
        Some(ResourceSource::Workers)
    } else if uri == "iii://triggers"@ {
        Some(ResourceSource::Triggers)
    } else if uri == "iii://context"@ {
        Some(ResourceSource::Context)
    } else {
        None
    }
}

/// The source of each listed resource, in the order of `listed_resources`.
pub open spec fn listed_sources() -> Seq<ResourceSource> {
    seq![
        ResourceSource::Functions,
        ResourceSource::Workers,
        ResourceSource::Triggers,
        ResourceSource::Context,
    ]
}

/// Every listed resource can be read: its uri names the resource it was listed as,
/// so reading it never answers "Unknown resource".
pub proof fn lemma_listed_resources_are_readable(i: int)
    requires
        0 <= i < listed_resources().len(),
    ensures
        source_of(listed_resources()[i].0) == Some(listed_sources()[i]),
{
    reveal_strlit("iii://functions");
    reveal_strlit("iii://workers");
    reveal_strlit("iii://triggers");
    reveal_strlit("iii://context");
    assert("iii://workers"@ != "iii://functions"@) by {
        assert("iii://workers"@[6] != "iii://functions"@[6]);
    }
    assert("iii://triggers"@ != "iii://functions"@) by {
        assert("iii://triggers"@[6] != "iii://functions"@[6]);
    }
    assert("iii://triggers"@ != "iii://workers"@) by {
        assert("iii://triggers"@[6] != "iii://workers"@[6]);
    }
    assert("iii://context"@ != "iii://functions"@) by {
        assert("iii://context"@[6] != "iii://functions"@[6]);
    }
    assert("iii://context"@ != "iii://workers"@) by {
        assert("iii://context"@[6] != "iii://workers"@[6]);
    }
    assert("iii://context"@ != "iii://triggers"@) by {
        assert("iii://context"@[6] != "iii://triggers"@[6]);
    }
}

/// The start of the error message when the engine could not give a resource's text.
pub open spec fn failure_prefix(source: ResourceSource) -> Seq<char> {
    match source {
        ResourceSource::Functions => "Failed to list functions: "@,
        ResourceSource::Workers => "Failed to list workers: "@,
        ResourceSource::Triggers => "Failed to list triggers: "@,
        ResourceSource::Context => Seq::empty(),
    }
}

/// `r` is the error answer with the given message.
pub open spec fn is_error_reply(r: ReadReply, message: Seq<char>) -> bool {
    r matches ReadReply::Error(m) && m@ == message
}

/// `r` gives the one content at `uri`, of the JSON mime type, with the text `text`.
pub open spec fn is_contents_reply(r: ReadReply, uri: String, text: Seq<char>) -> bool {
    &&& r matches ReadReply::Contents(result)
    &&& r->Contents_0.contents@.len() == 1
    &&& r->Contents_0.contents@[0].uri == uri
    &&& r->Contents_0.contents@[0].mime_type matches Some(m) && m@ == json_mime()
    &&& r->Contents_0.contents@[0].text matches Some(t) && t@ == text
}

/// The text of `iii://context`: the pretty rendering of the context
/// document, or `{}` where serde_json gives none.
pub open spec fn context_text() -> Seq<char> {
    match pretty_json(context_spec()) {
        Some(t) => t,
        None => "{}"@,
    }
}

/// The text of `iii://context` renders the document that
/// `ResourcesHandler::context_document` gives: its pretty rendering, or `{}`
/// where serde_json gives none.
pub proof fn lemma_context_text_renders_context_document()
    ensures
        pretty_json(context_spec()) matches Some(t) ==> context_text() == t,
        pretty_json(context_spec()) is None ==> context_text() == "{}"@,
{
}

/// The context document names the four capabilities logger, state, events
/// and tracing, in this order, each with its description and the tools it
/// offers.
pub proof fn lemma_context_capabilities()
    ensures
        context_spec() == JsonSpec::Object(
            seq![
                ("description"@, JsonSpec::Str("Runtime context available to functions during execution"@)),
                ("capabilities"@, JsonSpec::Object(seq![
                    ("logger"@, JsonSpec::Object(seq![
                        ("description"@, JsonSpec::Str("Logging capabilities"@)),
                        ("tools"@, JsonSpec::Array(seq![
                            JsonSpec::Str("engine_log_info"@), JsonSpec::Str("engine_log_debug"@),
                            JsonSpec::Str("engine_log_warn"@), JsonSpec::Str("engine_log_error"@),
                            JsonSpec::Str("engine_log_trace"@),
                        ])),
                    ])),
                    ("state"@, JsonSpec::Object(seq![
                        ("description"@, JsonSpec::Str("Persistent data access"@)),
                        ("tools"@, JsonSpec::Array(seq![
                            JsonSpec::Str("state_get"@), JsonSpec::Str("state_set"@),
                            JsonSpec::Str("state_delete"@), JsonSpec::Str("state_update"@),
                            JsonSpec::Str("state_list"@),
                        ])),
                    ])),
                    ("events"@, JsonSpec::Object(seq![
                        ("description"@, JsonSpec::Str("Event publishing"@)),
                        ("tools"@, JsonSpec::Array(seq![
                            JsonSpec::Str("emit"@), JsonSpec::Str("publish"@),
                        ])),
                    ])),
                    ("tracing"@, JsonSpec::Object(seq![
                        ("description"@, JsonSpec::Str("Distributed tracing and baggage"@)),
                        ("tools"@, JsonSpec::Array(seq![
                            JsonSpec::Str("engine_baggage_get"@), JsonSpec::Str("engine_baggage_set"@),
                            JsonSpec::Str("engine_baggage_getAll"@),
                        ])),
                    ])),
                ])),
            ],
        ),
{
    let logger: Seq<Seq<char>> = seq![
        "engine_log_info"@, "engine_log_debug"@, "engine_log_warn"@,
        "engine_log_error"@, "engine_log_trace"@,
    ];
    let state: Seq<Seq<char>> = seq![
        "state_get"@, "state_set"@, "state_delete"@, "state_update"@, "state_list"@,
    ];
    let events: Seq<Seq<char>> = seq!["emit"@, "publish"@];
    let tracing: Seq<Seq<char>> = seq![
        "engine_baggage_get"@, "engine_baggage_set"@, "engine_baggage_getAll"@,
    ];
    assert(logger.map_values(|t: Seq<char>| JsonSpec::Str(t)) =~= seq![
        JsonSpec::Str("engine_log_info"@), JsonSpec::Str("engine_log_debug"@),
        JsonSpec::Str("engine_log_warn"@), JsonSpec::Str("engine_log_error"@),
        JsonSpec::Str("engine_log_trace"@),
    ]);
    assert(state.map_values(|t: Seq<char>| JsonSpec::Str(t)) =~= seq![
        JsonSpec::Str("state_get"@), JsonSpec::Str("state_set"@),
        JsonSpec::Str("state_delete"@), JsonSpec::Str("state_update"@),
        JsonSpec::Str("state_list"@),
    ]);
    assert(events.map_values(|t: Seq<char>| JsonSpec::Str(t)) =~= seq![
        JsonSpec::Str("emit"@), JsonSpec::Str("publish"@),
    ]);
    assert(tracing.map_values(|t: Seq<char>| JsonSpec::Str(t)) =~= seq![
        JsonSpec::Str("engine_baggage_get"@), JsonSpec::Str("engine_baggage_set"@),
        JsonSpec::Str("engine_baggage_getAll"@),
    ]);
}

/// A contents answer holds exactly one content: at the uri given, of the
/// JSON mime type, with the text given.
pub proof fn lemma_contents_reply(r: ReadReply, uri: String, text: Seq<char>)
    requires
        is_contents_reply(r, uri, text),
    ensures
        r matches ReadReply::Contents(result) && result.contents@.len() == 1,
        r->Contents_0.contents@[0].uri == uri,
        r->Contents_0.contents@[0].mime_type matches Some(m) && m@ == "application/json"@,
        r->Contents_0.contents@[0].text matches Some(t) && t@ == text,
{
}

/// An error answer carries exactly the message given.
pub proof fn lemma_error_reply(r: ReadReply, message: Seq<char>)
    requires
        is_error_reply(r, message),
    ensures
        r matches ReadReply::Error(m) && m@ == message,
{
}

/// The resources that can be read are exactly the four listed ones, each
/// read from its own source.
pub proof fn lemma_readable_uris(uri: Seq<char>)
    ensures
        source_of(uri) is Some <==> (uri == "iii://functions"@ || uri == "iii://workers"@ || uri
            == "iii://triggers"@ || uri == "iii://context"@),
        source_of(uri) == Some(ResourceSource::Functions) ==> uri == "iii://functions"@,
        source_of(uri) == Some(ResourceSource::Workers) ==> uri == "iii://workers"@,
        source_of(uri) == Some(ResourceSource::Triggers) ==> uri == "iii://triggers"@,
        source_of(uri) == Some(ResourceSource::Context) ==> uri == "iii://context"@,
{
}

/// Every resource that can be read is listed.
pub proof fn lemma_readable_resources_are_listed(uri: Seq<char>)
    requires
        source_of(uri) is Some,
    ensures
        exists|i: int| 0 <= i < listed_resources().len() && #[trigger] listed_resources()[i].0 == uri,
{
    if uri == "iii://functions"@ {
        assert(listed_resources()[0].0 == uri);
    } else if uri == "iii://workers"@ {
        assert(listed_resources()[1].0 == uri);
    } else if uri == "iii://triggers"@ {
        assert(listed_resources()[2].0 == uri);
    } else {
        assert(listed_resources()[3].0 == uri);
    }
}

/// A failed engine list is reported as "Failed to list" and the list's name.
pub proof fn lemma_failure_messages()
    ensures
        failure_prefix(ResourceSource::Functions) == "Failed to list functions: "@,
        failure_prefix(ResourceSource::Workers) == "Failed to list workers: "@,
        failure_prefix(ResourceSource::Triggers) == "Failed to list triggers: "@,
{
}

/// One capability of the runtime context: `{"description": .., "tools": [..]}`.
pub open spec fn capability_spec(description: Seq<char>, tools: Seq<Seq<char>>) -> JsonSpec {
    JsonSpec::Object(
        seq![
            ("description"@, JsonSpec::Str(description)),
            ("tools"@, JsonSpec::Array(tools.map_values(|t: Seq<char>| JsonSpec::Str(t)))),
        ],
    )
}

/// The document describing the runtime context available to functions.
pub open spec fn context_spec() -> JsonSpec {
    JsonSpec::Object(
        seq![
            ("description"@, JsonSpec::Str("Runtime context available to functions during execution"@)),
            ("capabilities"@, JsonSpec::Object(seq![
                ("logger"@, capability_spec("Logging capabilities"@, seq![
                    "engine_log_info"@, "engine_log_debug"@, "engine_log_warn"@,
                    "engine_log_error"@, "engine_log_trace"@,
                ])),
                ("state"@, capability_spec("Persistent data access"@, seq![
                    "state_get"@, "state_set"@, "state_delete"@, "state_update"@, "state_list"@,
                ])),
                ("events"@, capability_spec("Event publishing"@, seq!["emit"@, "publish"@])),
                ("tracing"@, capability_spec("Distributed tracing and baggage"@, seq![
                    "engine_baggage_get"@, "engine_baggage_set"@, "engine_baggage_getAll"@,
                ])),
            ])),
        ],
    )
}

fn capability(description: &str, tools: &[&str]) -> (r: JsonValue)
    ensures
        r@ == capability_spec(description@, tools@.map_values(|s: &str| s@)),
{
    let mut members: Vec<JsonMember> = Vec::new();
    push_member(&mut members, "description", JsonValue::text(description));
    let list = JsonValue::text_array(tools);
    push_member(&mut members, "tools", list);
    assert(tools@.map_values(|s: &str| s@).map_values(|t: Seq<char>| JsonSpec::Str(t))
        =~= tools@.map_values(|s: &str| JsonSpec::Str(s@)));
    assert(members_view(members@) =~= seq![
        ("description"@, JsonSpec::Str(description@)),
        ("tools"@, JsonSpec::Array(tools@.map_values(|s: &str| JsonSpec::Str(s@)))),
    ]);
    JsonValue::Object(members)
}

fn resource(uri: &str, name: &str, description: &str) -> (r: McpResource)
    ensures
        is_listed_as(r, (uri@, name@, description@)),
{
    McpResource {
        uri: owned(uri),
        name: owned(name),
        description: Some(owned(description)),
        mime_type: Some(owned("application/json")),
    }
}

fn error_reply(message: String) -> (r: ReadReply)
    ensures
        is_error_reply(r, message@),
{
    ReadReply::Error(message)
}

impl ResourcesHandler {
    pub fn new() -> (r: ResourcesHandler) {
        ResourcesHandler {  }
    }

    /// The answer to `resources/list`: the four resources of `listed_resources`, in order.
    pub fn list(&self) -> (r: ResourcesListResult)
        ensures
            r.resources@.len() == listed_resources().len(),
            forall|i: int|
                0 <= i < listed_resources().len() ==> #[trigger] is_listed_as(
                    r.resources@[i],
                    listed_resources()[i],
                ),
    {
        let mut resources: Vec<McpResource> = Vec::new();
        resources.push(resource("iii://functions", "Functions", "All registered iii-engine functions"));
        resources.push(resource("iii://workers", "Workers", "Connected iii-engine workers"));
        resources.push(resource("iii://triggers", "Triggers", "Registered iii-engine triggers"));
        resources.push(
            resource(
                "iii://context",
                "Context",
                "Runtime context available to functions (logging, state, events, tracing)",
            ),
        );
        ResourcesListResult { resources }
    }

    /// The first half of `resources/read`: from the parameters (absent, not
    /// readable with the reason given, or read), the error answer, the
    /// answer for `iii://context` (its document rendered as pretty JSON), or
    /// the engine list whose text is to be fetched.
    pub fn read(&self, params: Option<Result<ResourceReadParams, String>>) -> (r: ReadStep)
        ensures
            match params {
                None => r matches ReadStep::Answer(reply) && is_error_reply(reply, "Missing params"@),
                Some(Err(reason)) => r matches ReadStep::Answer(reply) && is_error_reply(
                    reply,
                    "Invalid params: "@ + reason@,
                ),
                Some(Ok(p)) => match source_of(p.uri@) {
                    Some(ResourceSource::Context) => r matches ReadStep::Answer(reply)
                        && is_contents_reply(reply, p.uri, context_text()) && is_contents_reply(
                        reply,
                        p.uri,
                        match pretty_json(context_spec()) {
                            Some(t) => t,
                            None => "{}"@,
                        },
                    ),
                    Some(source) => r == ReadStep::Fetch { uri: p.uri, source },
                    None => r matches ReadStep::Answer(reply) && is_error_reply(
                        reply,
                        "Unknown resource: "@ + p.uri@,
                    ),
                },
            },
    {
        match params {
            None => ReadStep::Answer(error_reply(owned("Missing params"))),
            Some(Err(reason)) => ReadStep::Answer(
                error_reply(join("Invalid params: ", reason.as_str())),
            ),
            Some(Ok(p)) => {
                let source = Self::resource_source(&p.uri);
                match source {
                    Some(ResourceSource::Context) => {
                        let text = match render_pretty(&Self::context_document()) {
                            Some(t) => t,
                            None => owned("{}"),
                        };
                        ReadStep::Answer(Self::contents(p.uri, text))
                    },
                    Some(source) => ReadStep::Fetch { uri: p.uri, source },
                    None => ReadStep::Answer(
                        error_reply(join("Unknown resource: ", p.uri.as_str())),
                    ),
                }
            },
        }
    }

    /// The resource that `uri` names, if any.
    pub fn resource_source(uri: &String) -> (r: Option<ResourceSource>)
        ensures
            r == source_of(uri@),
    {
        let u = uri.as_str();
        if crate::text::same_text(u, "iii://functions") {
            Some(ResourceSource::Functions)
        } else if crate::text::same_text(u, "iii://workers") {
            Some(ResourceSource::Workers)
        } else if crate::text::same_text(u, "iii://triggers") {
            Some(ResourceSource::Triggers)
        } else if crate::text::same_text(u, "iii://context") {
            Some(ResourceSource::Context)
        } else {
            None
        }
    }

    /// The second half of `resources/read`: the answer from the rendered text
    /// of the resource at `uri`, or from the reason the engine could not give it.
    /// Rendering the context document does not fail.
    pub fn read_finished(&self, uri: String, source: ResourceSource, outcome: Result<String, String>) -> (r: ReadReply)
        requires
            source == ResourceSource::Context ==> outcome is Ok,
        ensures
            match outcome {
                Ok(text) => is_contents_reply(r, uri, text@),
                Err(reason) => is_error_reply(r, failure_prefix(source) + reason@),
            },
    {
        match outcome {
            Ok(text) => Self::contents(uri, text),
            Err(reason) => {
                let prefix = match source {
                    ResourceSource::Functions => "Failed to list functions: ",
                    ResourceSource::Workers => "Failed to list workers: ",
                    ResourceSource::Triggers => "Failed to list triggers: ",
                    ResourceSource::Context => "",
                };
                error_reply(join(prefix, reason.as_str()))
            },
        }
    }

    /// The answer holding the one content at `uri`, of the JSON mime type, with `text`.
    fn contents(uri: String, text: String) -> (r: ReadReply)
        ensures
            is_contents_reply(r, uri, text@),
    {
        let mut contents: Vec<ResourceContent> = Vec::new();
        contents.push(
            ResourceContent { uri, mime_type: Some(owned("application/json")), text: Some(text) },
        );
        ReadReply::Contents(ResourceReadResult { contents })
    }

    /// The document describing the runtime context available to functions,
    /// whose rendering is the text of `iii://context`.
    pub fn context_document() -> (r: JsonValue)
        ensures
            r@ == context_spec(),
    {
        let logger_tools: [&str; 5] = [
            "engine_log_info",
            "engine_log_debug",
            "engine_log_warn",
            "engine_log_error",
            "engine_log_trace",
        ];
        let state_tools: [&str; 5] = [
            "state_get",
            "state_set",
            "state_delete",
            "state_update",
            "state_list",
        ];
        let events_tools: [&str; 2] = ["emit", "publish"];
        let tracing_tools: [&str; 3] = [
            "engine_baggage_get",
            "engine_baggage_set",
            "engine_baggage_getAll",
        ];
        assert(logger_tools@.map_values(|s: &str| s@) =~= seq![
            "engine_log_info"@, "engine_log_debug"@, "engine_log_warn"@,
            "engine_log_error"@, "engine_log_trace"@,
        ]);
        assert(state_tools@.map_values(|s: &str| s@) =~= seq![
            "state_get"@, "state_set"@, "state_delete"@, "state_update"@, "state_list"@,
        ]);
        assert(events_tools@.map_values(|s: &str| s@) =~= seq!["emit"@, "publish"@]);
        assert(tracing_tools@.map_values(|s: &str| s@) =~= seq![
            "engine_baggage_get"@, "engine_baggage_set"@, "engine_baggage_getAll"@,
        ]);
        let logger = capability("Logging capabilities", &logger_tools);
        let state = capability("Persistent data access", &state_tools);
        let events = capability("Event publishing", &events_tools);
        let tracing = capability("Distributed tracing and baggage", &tracing_tools);
        let mut capabilities: Vec<JsonMember> = Vec::new();
        push_member(&mut capabilities, "logger", logger);
        push_member(&mut capabilities, "state", state);
        push_member(&mut capabilities, "events", events);
        push_member(&mut capabilities, "tracing", tracing);
        assert(members_view(capabilities@) =~= seq![
            ("logger"@, logger@), ("state"@, state@), ("events"@, events@), ("tracing"@, tracing@),
        ]);
        let mut members: Vec<JsonMember> = Vec::new();
        push_member(
            &mut members,
            "description",
            JsonValue::text("Runtime context available to functions during execution"),
        );
        push_member(&mut members, "capabilities", JsonValue::Object(capabilities));
        assert(members_view(members@) =~= seq![
            ("description"@, JsonSpec::Str("Runtime context available to functions during execution"@)),
            ("capabilities"@, JsonSpec::Object(members_view(capabilities@))),
        ]);
        JsonValue::Object(members)
    }
}

} // verus!

//! JSON-RPC requests and responses, and the server that routes MCP requests
//! to their handlers.

use vstd::prelude::*;
use crate::json::{JsonMember, JsonSpec, JsonValue, members_view, push_member};
use crate::resources::ResourcesHandler;
use crate::text::{join, owned, same_text};
use crate::tools::ToolsHandler;

verus! {

/// JSON-RPC error code: the request is not valid JSON.
pub const PARSE_ERROR: i32 = -32700;

/// JSON-RPC error code: the method does not exist.
pub const METHOD_NOT_FOUND: i32 = -32601;

/// JSON-RPC error code: the server could not serve the request.
pub const INTERNAL_ERROR: i32 = -32603;

/// A JSON-RPC request.
#[derive(Debug, PartialEq, Eq)]
pub struct JsonRpcRequest {
    pub id: Option<JsonValue>,
    pub method: String,
    pub params: Option<JsonValue>,
}

/// What a JSON-RPC response carries: a result or an error.
#[derive(Debug, PartialEq, Eq)]
pub enum JsonRpcOutcome {
    Result(JsonValue),
    Error { code: i32, message: String },
}

/// A JSON-RPC response.
#[derive(Debug, PartialEq, Eq)]
pub struct JsonRpcResponse {
    /// The protocol version, `"2.0"`.
    pub jsonrpc: String,
    pub id: Option<JsonValue>,
    pub outcome: JsonRpcOutcome,
}

/// `r` answers the request `id` with a result whose view is `result`.
pub open spec fn is_success(r: JsonRpcResponse, id: Option<JsonValue>, result: JsonSpec) -> bool {
    &&& r.jsonrpc@ == "2.0"@
    &&& r.id == id
    &&& r.outcome matches JsonRpcOutcome::Result(v) && v@ == result
}

/// `r` answers the request `id` with the error `code` and `message`.
pub open spec fn is_failure(r: JsonRpcResponse, id: Option<JsonValue>, code: i32, message: Seq<char>) -> bool {
    &&& r.jsonrpc@ == "2.0"@
    &&& r.id == id
    &&& r.outcome matches JsonRpcOutcome::Error { code: c, message: m } && c == code && m@ == message
}

/// A success is a version-2.0 response to the request `id` that carries a
/// result with the view given; a failure is one that carries an error with
/// the code and message given.
pub proof fn lemma_response_meaning(r: JsonRpcResponse, id: Option<JsonValue>, result: JsonSpec, code: i32, message: Seq<char>)
    ensures
        is_success(r, id, result) ==> r.jsonrpc@ == "2.0"@ && r.id == id,
        is_success(r, id, result) ==> (r.outcome matches JsonRpcOutcome::Result(v) && v@ == result),
        is_failure(r, id, code, message) ==> r.jsonrpc@ == "2.0"@ && r.id == id,
        is_failure(r, id, code, message) ==> (r.outcome matches JsonRpcOutcome::Error {
            code: c,
            message: m,
        } && c == code && m@ == message),
{
}

impl JsonRpcResponse {
    /// The response to request `id` with the result `result`.
    pub fn success(id: Option<JsonValue>, result: JsonValue) -> (r: JsonRpcResponse)
        ensures
            r.jsonrpc@ == "2.0"@,
            r.id == id,
            r.outcome == JsonRpcOutcome::Result(result),
    {
        JsonRpcResponse { jsonrpc: owned("2.0"), id, outcome: JsonRpcOutcome::Result(result) }
    }

    /// The response to request `id` with the error `code` and `message`.
    pub fn error(id: Option<JsonValue>, code: i32, message: String) -> (r: JsonRpcResponse)
        ensures
            r.jsonrpc@ == "2.0"@,
            r.id == id,
            r.outcome == (JsonRpcOutcome::Error { code, message }),
    {
        JsonRpcResponse { jsonrpc: owned("2.0"), id, outcome: JsonRpcOutcome::Error { code, message } }
    }

    /// The response to a line that is not valid JSON, `detail` telling why.
    pub fn parse_failure(detail: &str) -> (r: JsonRpcResponse)
        ensures
            is_failure(r, None, PARSE_ERROR, "Parse error: "@ + detail@),
    {
        JsonRpcResponse::error(None, PARSE_ERROR, join("Parse error: ", detail))
    }
}

/// The requests that need the server to be initialized, and whose work is
/// done outside: the engine is asked, then the handler answers.
#[derive(PartialEq, Eq, Structural, Clone, Copy, Debug)]
pub enum Action {
    ToolsList,
    ToolsCall,
    ResourcesList,
    ResourcesRead,
}

/// What a request's method asks for.
#[derive(PartialEq, Eq, Structural, Clone, Copy, Debug)]
pub enum Route {
    Initialize,
    InitializedNotice,
    Guarded(Action),
    TemplatesList,
    Ping,
    Unknown,
}

/// The route of each method.
pub open spec fn route(method: Seq<char>) -> Route {
    if method == "initialize"@ {
        Route::Initialize
    } else if method == "notifications/initialized"@ {
        Route::InitializedNotice
    } else if method == "tools/list"@ {
        Route::Guarded(Action::ToolsList)
    } else if method == "tools/call"@ {
        Route::Guarded(Action::ToolsCall)
    } else if method == "resources/list"@ {
        Route::Guarded(Action::ResourcesList)
    } else if method == "resources/read"@ {
        Route::Guarded(Action::ResourcesRead)
    } else if method == "resources/templates/list"@ {
        Route::TemplatesList
    } else if method == "ping"@ {
        Route::Ping
    } else {
        Route::Unknown
    }
}

/// Only the eight served methods have a route: every other method is
/// unknown; `initialize` is the only one that initializes, and the four
/// guarded methods are the tool and resource requests.
pub proof fn lemma_route_only_served(method: Seq<char>)
    ensures
        route(method) != Route::Unknown ==> (method == "initialize"@ || method
            == "notifications/initialized"@ || method == "tools/list"@ || method == "tools/call"@
            || method == "resources/list"@ || method == "resources/read"@ || method
            == "resources/templates/list"@ || method == "ping"@),
        route(method) == Route::Initialize <==> method == "initialize"@,
        route(method) == Route::InitializedNotice ==> method == "notifications/initialized"@,
        route(method) == Route::Guarded(Action::ToolsList) ==> method == "tools/list"@,
        route(method) == Route::Guarded(Action::ToolsCall) ==> method == "tools/call"@,
        route(method) == Route::Guarded(Action::ResourcesList) ==> method == "resources/list"@,
        route(method) == Route::Guarded(Action::ResourcesRead) ==> method == "resources/read"@,
        route(method) == Route::TemplatesList ==> method == "resources/templates/list"@,
        route(method) == Route::Ping ==> method == "ping"@,
{
}

/// The route of `method`.
pub fn route_of(method: &str) -> (r: Route)
    ensures
        r == route(method@),
{
    if same_text(method, "initialize") {
        Route::Initialize
    } else if same_text(method, "notifications/initialized") {
        Route::InitializedNotice
    } else if same_text(method, "tools/list") {
        Route::Guarded(Action::ToolsList)
    } else if same_text(method, "tools/call") {
        Route::Guarded(Action::ToolsCall)
    } else if same_text(method, "resources/list") {
        Route::Guarded(Action::ResourcesList)
    } else if same_text(method, "resources/read") {
        Route::Guarded(Action::ResourcesRead)
    } else if same_text(method, "resources/templates/list") {
        Route::TemplatesList
    } else if same_text(method, "ping") {
        Route::Ping
    } else {
        Route::Unknown
    }
}

/// Answers `initialize` with the server's name and version.
#[derive(Debug, PartialEq, Eq)]
pub struct InitializeHandler {
    pub name: String,
    pub version: String,
}

/// The answer to `initialize`: the protocol version, the capabilities
/// (tools and resources) and the server's name and version.
pub open spec fn initialize_spec(name: Seq<char>, version: Seq<char>) -> JsonSpec {
    JsonSpec::Object(
        seq![
            ("protocolVersion"@, JsonSpec::Str("2024-11-05"@)),
            ("capabilities"@, JsonSpec::Object(seq![
                ("tools"@, JsonSpec::Object(Seq::empty())),
                ("resources"@, JsonSpec::Object(Seq::empty())),
            ])),
            ("serverInfo"@, JsonSpec::Object(seq![
                ("name"@, JsonSpec::Str(name)),
                ("version"@, JsonSpec::Str(version)),
            ])),
        ],
    )
}

/// The answer to `initialize` names the server: its `serverInfo` holds the
/// name and version given, and it offers the tools and resources capabilities.
pub proof fn lemma_initialize_names_server(name: Seq<char>, version: Seq<char>)
    ensures
        initialize_spec(name, version) matches JsonSpec::Object(m) && m.len() == 3 && m[2] == (
        "serverInfo"@,
        JsonSpec::Object(seq![("name"@, JsonSpec::Str(name)), ("version"@, JsonSpec::Str(version))]),
        ) && m[1] == ("capabilities"@, JsonSpec::Object(seq![
            ("tools"@, JsonSpec::Object(Seq::empty())),
            ("resources"@, JsonSpec::Object(Seq::empty())),
        ])),
{
}

/// The answer to `resources/templates/list`: `{"resourceTemplates": []}`.
pub open spec fn templates_spec() -> JsonSpec {
    JsonSpec::Object(seq![("resourceTemplates"@, JsonSpec::Array(Seq::empty()))])
}

impl InitializeHandler {
    pub fn new(name: &str, version: &str) -> (r: InitializeHandler)
        ensures
            r.name@ == name@,
            r.version@ == version@,
    {
        InitializeHandler { name: owned(name), version: owned(version) }
    }

    /// The answer to `initialize`.
    pub fn handle(&self) -> (r: JsonValue)
        ensures
            r@ == initialize_spec(self.name@, self.version@),
    {
        let mut capabilities: Vec<JsonMember> = Vec::new();
        push_member(&mut capabilities, "tools", JsonValue::empty_object());
        push_member(&mut capabilities, "resources", JsonValue::empty_object());
        let mut info: Vec<JsonMember> = Vec::new();
        push_member(&mut info, "name", JsonValue::text(self.name.as_str()));
        push_member(&mut info, "version", JsonValue::text(self.version.as_str()));
        let mut members: Vec<JsonMember> = Vec::new();
        push_member(&mut members, "protocolVersion", JsonValue::text("2024-11-05"));
        push_member(&mut members, "capabilities", JsonValue::Object(capabilities));
        push_member(&mut members, "serverInfo", JsonValue::Object(info));
        assert(members_view(capabilities@) =~= seq![
            ("tools"@, JsonSpec::Object(Seq::empty())),
            ("resources"@, JsonSpec::Object(Seq::empty())),
        ]);
        assert(members_view(info@) =~= seq![
            ("name"@, JsonSpec::Str(self.name@)),
            ("version"@, JsonSpec::Str(self.version@)),
        ]);
        assert(members_view(members@) =~= seq![
            ("protocolVersion"@, JsonSpec::Str("2024-11-05"@)),
            ("capabilities"@, JsonSpec::Object(members_view(capabilities@))),
            ("serverInfo"@, JsonSpec::Object(members_view(info@))),
        ]);
        JsonValue::Object(members)
    }
}

/// The answer to `resources/templates/list`.
fn templates_list() -> (r: JsonValue)
    ensures
        r@ == templates_spec(),
{
    let mut members: Vec<JsonMember> = Vec::new();
    push_member(&mut members, "resourceTemplates", JsonValue::Array(Vec::new()));
    assert(members_view(members@) =~= seq![("resourceTemplates"@, JsonSpec::Array(Seq::empty()))]);
    JsonValue::Object(members)
}

/// What the server does with a request.
#[derive(Debug, PartialEq, Eq)]
pub enum Step {
    /// Send this response.
    Respond(JsonRpcResponse),
    /// Ask the engine for what `action` needs, let the handler answer, and
    /// send the answer as the result of request `id`.
    Run { action: Action, id: Option<JsonValue>, params: Option<JsonValue> },
}

/// The server's state: whether it was initialized, the methods of the
/// requests it handled, in order, and who it says it is.
pub struct McpServerView {
    pub initialized: bool,
    pub history: Seq<Seq<char>>,
    pub name: Seq<char>,
    pub version: Seq<char>,
}

/// An MCP server. It answers `initialize`, `ping` and the resource templates
/// itself, routes the tool and resource requests to their handlers once it
/// was initialized, and refuses them before.
pub struct McpServer {
    initialize_handler: InitializeHandler,
    tools_handler: ToolsHandler,
    resources_handler: ResourcesHandler,
    state: ServerState,
}

/// Whether the server was initialized, with the methods it handled (ghost).
struct ServerState {
    initialized: bool,
    history: Ghost<Seq<Seq<char>>>,
}

impl McpServer {
    /// The server is initialized exactly when the requests it handled initialized it.
    #[verifier::type_invariant]
    spec fn initialized_by_history(self) -> bool {
        self.state.initialized == initialized_after(false, self.state.history@)
    }
}

impl View for McpServer {
    type V = McpServerView;

    closed spec fn view(&self) -> McpServerView {
        McpServerView {
            initialized: self.state.initialized,
            history: self.state.history@,
            name: self.initialize_handler.name@,
            version: self.initialize_handler.version@,
        }
    }
}

/// Whether a server is initialized after a request with `method`, from
/// whether it was before.
pub open spec fn next_initialized(initialized: bool, method: Seq<char>) -> bool {
    initialized || route(method) == Route::Initialize
}

/// Whether a server is initialized after requests with `methods`, in
/// order, from whether it was before.
pub open spec fn initialized_after(initialized: bool, methods: Seq<Seq<char>>) -> bool
    decreases methods.len(),
{
    if methods.len() == 0 {
        initialized
    } else {
        initialized_after(next_initialized(initialized, methods[0]), methods.drop_first())
    }
}

/// A server is initialized after a run of requests if and only if it was
/// before, or one of the requests was `initialize`: in particular a new
/// server serves no tool or resource request until it gets `initialize`,
/// and once initialized it stays so.
pub proof fn lemma_initialized_after(initialized: bool, methods: Seq<Seq<char>>)
    ensures
        initialized_after(initialized, methods) <==> (initialized || exists|i: int|
            0 <= i < methods.len() && #[trigger] methods[i] == "initialize"@),
    decreases methods.len(),
{
    if methods.len() > 0 {
        let rest = methods.drop_first();
        lemma_initialized_after(next_initialized(initialized, methods[0]), rest);
        if exists|i: int| 0 <= i < methods.len() && #[trigger] methods[i] == "initialize"@ {
            let i = choose|i: int| 0 <= i < methods.len() && #[trigger] methods[i] == "initialize"@;
            if i > 0 {
                assert(rest[i - 1] == "initialize"@);
            }
        }
        if exists|i: int| 0 <= i < rest.len() && #[trigger] rest[i] == "initialize"@ {
            let i = choose|i: int| 0 <= i < rest.len() && #[trigger] rest[i] == "initialize"@;
            assert(methods[i + 1] == "initialize"@);
        }
    }
}

/// One of `methods` is `initialize`.
pub open spec fn seen_initialize(methods: Seq<Seq<char>>) -> bool {
    exists|i: int| 0 <= i < methods.len() && #[trigger] methods[i] == "initialize"@
}

/// Handling one more request: the run of requests with `method` last.
pub proof fn lemma_initialized_after_push(initialized: bool, methods: Seq<Seq<char>>, method: Seq<char>)
    ensures
        initialized_after(initialized, methods.push(method)) == next_initialized(
            initialized_after(initialized, methods),
            method,
        ),
    decreases methods.len(),
{
    if methods.len() > 0 {
        assert(methods.push(method).drop_first() =~= methods.drop_first().push(method));
        assert(methods.push(method)[0] == methods[0]);
        lemma_initialized_after_push(
            next_initialized(initialized, methods[0]),
            methods.drop_first(),
            method,
        );
    } else {
        assert(methods.push(method).drop_first() =~= Seq::<Seq<char>>::empty());
        assert(methods.push(method)[0] == method);
        assert(initialized_after(next_initialized(initialized, method), Seq::<Seq<char>>::empty())
            == next_initialized(initialized, method));
    }
}

/// A tool or resource request is run if and only if the server was
/// initialized; before, it is answered with `INTERNAL_ERROR`.
pub proof fn lemma_guarded_runs_only_when_initialized(
    s: McpServerView,
    request: JsonRpcRequest,
    step: Step,
)
    requires
        answers(s, request, step),
        route(request.method@) is Guarded,
    ensures
        step is Run <==> s.initialized,
        !s.initialized ==> (step matches Step::Respond(r) && r.outcome matches JsonRpcOutcome::Error {
            code,
            ..
        } && code == INTERNAL_ERROR),
{
}

/// Every answer belongs to the request it answers: a response carries the
/// request's id and the protocol version `"2.0"`, and the work handed out
/// carries the request's id and parameters.
pub proof fn lemma_answer_keeps_request_id(s: McpServerView, request: JsonRpcRequest, step: Step)
    requires
        answers(s, request, step),
    ensures
        match step {
            Step::Respond(r) => r.id == request.id && r.jsonrpc@ == "2.0"@,
            Step::Run { id, params, .. } => id == request.id && params == request.params,
        },
{
}

/// What each answer is: a served request gets its result, a tool or
/// resource request is handed out once initialized and refused with -32603
/// before, and an unknown method is refused with -32601, naming the method.
pub proof fn lemma_answers_meaning(s: McpServerView, request: JsonRpcRequest, step: Step)
    requires
        answers(s, request, step),
    ensures
        route(request.method@) == Route::Unknown ==> (step matches Step::Respond(r)
            && r.outcome matches JsonRpcOutcome::Error { code, message } && code == -32601i32
            && message@ == "Unknown method: "@ + request.method@),
        route(request.method@) is Guarded && !s.initialized ==> (step matches Step::Respond(r)
            && r.outcome matches JsonRpcOutcome::Error { code, message } && code == -32603i32
            && message@ == "Server not initialized"@),
        route(request.method@) matches Route::Guarded(action) ==> (s.initialized ==> step == (
        Step::Run { action, id: request.id, params: request.params })),
        route(request.method@) == Route::Ping ==> (step matches Step::Respond(r)
            && r.outcome matches JsonRpcOutcome::Result(v) && v@ == JsonSpec::Object(Seq::empty())),
        route(request.method@) == Route::InitializedNotice ==> (step matches Step::Respond(r)
            && r.outcome matches JsonRpcOutcome::Result(v) && v@ == JsonSpec::Null),
        route(request.method@) == Route::TemplatesList ==> (step matches Step::Respond(r)
            && r.outcome matches JsonRpcOutcome::Result(v) && v@ == JsonSpec::Object(
            seq![("resourceTemplates"@, JsonSpec::Array(Seq::empty()))],
        )),
        route(request.method@) == Route::Initialize ==> (step matches Step::Respond(r)
            && r.outcome matches JsonRpcOutcome::Result(v) && v@ == initialize_spec(s.name, s.version)),
        step matches Step::Respond(r) ==> r.id == request.id && r.jsonrpc@ == "2.0"@,
{
}

/// `step` is how a server in state `s` answers `request`.
pub open spec fn answers(s: McpServerView, request: JsonRpcRequest, step: Step) -> bool {
    match route(request.method@) {
        Route::Initialize => step matches Step::Respond(r) && is_success(
            r,
            request.id,
            initialize_spec(s.name, s.version),
        ),
        Route::InitializedNotice => step matches Step::Respond(r) && is_success(
            r,
            request.id,
            JsonSpec::Null,
        ),
        Route::Guarded(action) => if s.initialized {
            step == (Step::Run { action, id: request.id, params: request.params })
        } else {
            step matches Step::Respond(r) && is_failure(
                r,
                request.id,
                INTERNAL_ERROR,
                "Server not initialized"@,
            )
        },
        Route::TemplatesList => step matches Step::Respond(r) && is_success(
            r,
            request.id,
            templates_spec(),
        ),
        Route::Ping => step matches Step::Respond(r) && is_success(
            r,
            request.id,
            JsonSpec::Object(Seq::empty()),
        ),
        Route::Unknown => step matches Step::Respond(r) && is_failure(
            r,
            request.id,
            METHOD_NOT_FOUND,
            "Unknown method: "@ + request.method@,
        ),
    }
}

impl McpServer {
    /// A server named `iii-mcp` at `version`, not yet initialized.
    pub fn new(version: &str) -> (r: McpServer)
        ensures
            r@.initialized == false,
            r@.history == Seq::<Seq<char>>::empty(),
            r@.name == "iii-mcp"@,
            r@.version == version@,
    {
        McpServer {
            initialize_handler: InitializeHandler::new("iii-mcp", version),
            tools_handler: ToolsHandler::new(),
            resources_handler: ResourcesHandler::new(),
            state: ServerState { initialized: false, history: Ghost(Seq::empty()) },
        }
    }

    /// Whether the server was initialized.
    pub fn is_initialized(&self) -> (r: bool)
        ensures
            r == self@.initialized,
            r == seen_initialize(self@.history),
    {
        proof {
            use_type_invariant(self);
            lemma_initialized_after(false, self@.history);
        }
        self.state.initialized
    }

    /// The handler of the tool requests.
    pub fn tools_handler(&self) -> &ToolsHandler {
        &self.tools_handler
    }

    /// The handler of the resource requests.
    pub fn resources_handler(&self) -> &ResourcesHandler {
        &self.resources_handler
    }

    /// What to do with `request`; an `initialize` request initializes the server.
    pub fn handle_request(&mut self, request: JsonRpcRequest) -> (step: Step)
        ensures
            final(self)@.initialized == next_initialized(old(self)@.initialized, request.method@),
            final(self)@.history == old(self)@.history.push(request.method@),
            old(self)@.initialized == seen_initialize(old(self)@.history),
            final(self)@.initialized == seen_initialize(final(self)@.history),
            route(request.method@) is Guarded ==> (step is Respond <==> !seen_initialize(
                old(self)@.history,
            )),
            final(self)@.name == old(self)@.name,
            final(self)@.version == old(self)@.version,
            answers(old(self)@, request, step),
    {
        proof {
            use_type_invariant(&*self);
            lemma_initialized_after(false, self@.history);
            lemma_initialized_after_push(false, self@.history, request.method@);
            lemma_initialized_after(false, self@.history.push(request.method@));
        }
        let route = route_of(request.method.as_str());
        let was_initialized = self.state.initialized;
        let history = Ghost(self.state.history@.push(request.method@));
        self.state = ServerState {
            initialized: was_initialized || route == Route::Initialize,
            history,
        };
        match route {
            Route::Initialize => {
                let result = self.initialize_handler.handle();
                Step::Respond(JsonRpcResponse::success(request.id, result))
            },
            Route::InitializedNotice => Step::Respond(
                JsonRpcResponse::success(request.id, JsonValue::Null),
            ),
            Route::Guarded(action) => {
                if !was_initialized {
                    Step::Respond(
                        JsonRpcResponse::error(
                            request.id,
                            INTERNAL_ERROR,
                            owned("Server not initialized"),
                        ),
                    )
                } else {
                    Step::Run { action, id: request.id, params: request.params }
                }
            },
            Route::TemplatesList => Step::Respond(
                JsonRpcResponse::success(request.id, templates_list()),
            ),
            Route::Ping => Step::Respond(
                JsonRpcResponse::success(request.id, JsonValue::empty_object()),
            ),
            Route::Unknown => Step::Respond(
                JsonRpcResponse::error(
                    request.id,
                    METHOD_NOT_FOUND,
                    join("Unknown method: ", request.method.as_str()),
                ),
            ),
        }
    }
}

} // verus!

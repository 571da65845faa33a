//! The tools side of the server: engine functions offered as MCP tools, and
//! the answers to a tool call.

use vstd::prelude::*;
use crate::codec::{compact_json, lemma_shown_as_renders, pretty_json, show, shown_as};
use crate::json::{JsonMember, JsonSpec, JsonValue, members_view, push_member};
use crate::text::{join, lemma_replace_char, owned, replace_char, replace_char_in};

verus! {

/// What the logic reads of an engine function's description.
#[derive(Debug, PartialEq, Eq)]
pub struct FunctionInfo {
    /// The engine's id of the function, e.g. `"state.get"`.
    pub function_path: String,
    pub description: Option<String>,
    /// The JSON schema of the function's input, where the function declares one.
    pub request_format: Option<JsonValue>,
}

/// An MCP tool, as listed to clients.
#[derive(Debug, PartialEq, Eq)]
pub struct McpTool {
    pub name: String,
    pub description: Option<String>,
    pub input_schema: JsonValue,
}

/// The answer to `tools/list`.
#[derive(Debug, PartialEq, Eq)]
pub struct ToolsListResult {
    pub tools: Vec<McpTool>,
}

/// The parameters of `tools/call`.
#[derive(Debug, PartialEq, Eq)]
pub struct ToolCallParams {
    pub name: String,
    /// The arguments handed to the function (`null` where the client gave none).
    pub arguments: JsonValue,
}

/// One piece of content of a tool's answer.
#[derive(Debug, PartialEq, Eq)]
pub enum ToolContent {
    Text { text: String },
}

/// The answer to `tools/call`.
#[derive(Debug, PartialEq, Eq)]
pub struct ToolCallResult {
    pub content: Vec<ToolContent>,
    pub is_error: bool,
}

/// The call that `tools/call` asks the engine to make.
#[derive(Debug, PartialEq, Eq)]
pub struct ToolInvocation {
    pub function_path: String,
    pub arguments: JsonValue,
}

/// Serves `tools/list` and `tools/call`; the engine calls themselves are made
/// by its caller, which hands their outcome back.
#[derive(Debug, PartialEq, Eq)]
pub struct ToolsHandler {}

/// The schema given to a tool whose function declares none: `{"type": "object", "properties": {}}`.
pub open spec fn default_input_schema() -> JsonSpec {
    JsonSpec::Object(
        seq![("type"@, JsonSpec::Str("object"@)), ("properties"@, JsonSpec::Object(Seq::empty()))],
    )
}

/// The tool name of an engine function: its path with `.` turned into `_`.
pub open spec fn tool_name(function_path: Seq<char>) -> Seq<char> {
    replace_char(function_path, '.', '_')
}

/// The engine function that a tool name calls: the name with `_` turned into `.`.
pub open spec fn function_path_of(tool: Seq<char>) -> Seq<char> {
    replace_char(tool, '_', '.')
}

/// `tool` is the MCP tool that describes `func`.
pub open spec fn describes(tool: McpTool, func: FunctionInfo) -> bool {
    &&& tool.name@ == tool_name(func.function_path@)
    &&& tool.description == func.description
    &&& tool.input_schema@ == match func.request_format {
        Some(schema) => schema@,
        None => default_input_schema(),
    }
}

/// `r` is a tool answer made of the one text `text`, flagged as an error or not.
pub open spec fn text_answer(r: ToolCallResult, text: Seq<char>, is_error: bool) -> bool {
    &&& r.is_error == is_error
    &&& r.content@.len() == 1
    &&& r.content@[0] matches ToolContent::Text { text: t } && t@ == text
}

/// No tool name holds a `.`: every `.` of a function path is turned into `_`.
pub proof fn lemma_tool_name_has_no_dot(function_path: Seq<char>)
    ensures
        !tool_name(function_path).contains('.'),
{
    let name = tool_name(function_path);
    assert forall|i: int| 0 <= i < name.len() implies name[i] != '.' by {}
}

/// Calling a listed tool by its name reaches the function it was listed for,
/// for every function path without `_`; a path holding `_` is reached
/// with each `_` turned into `.`.
pub proof fn lemma_call_reaches_listed_function(function_path: Seq<char>)
    ensures
        !function_path.contains('_') ==> function_path_of(tool_name(function_path)) == function_path,
        function_path_of(tool_name(function_path)) == replace_char(function_path, '_', '.'),
{
    assert(function_path_of(tool_name(function_path)) =~= replace_char(function_path, '_', '.'));
    if !function_path.contains('_') {
        assert forall|i: int| 0 <= i < function_path.len() implies function_path[i] != '_' by {
            if function_path[i] == '_' {
                assert(function_path.contains('_'));
            }
        }
        assert(replace_char(function_path, '_', '.') =~= function_path);
    }
}

/// What a listed tool is: its name is the function's path with each `.`
/// turned into `_` and every other character kept in place, its description
/// is the function's, and its input schema is the function's declared request
/// format, or, only where there is none, `{"type": "object", "properties": {}}`.
pub proof fn lemma_tool_of_function(tool: McpTool, func: FunctionInfo)
    requires
        describes(tool, func),
    ensures
        tool.name@.len() == func.function_path@.len(),
        forall|i: int|
            0 <= i < func.function_path@.len() ==> #[trigger] tool.name@[i] == (if func.function_path@[i]
                == '.' {
                '_'
            } else {
                func.function_path@[i]
            }),
        tool.description == func.description,
        func.request_format matches Some(schema) ==> tool.input_schema@ == schema@,
        func.request_format is None ==> tool.input_schema@ == JsonSpec::Object(
            seq![("type"@, JsonSpec::Str("object"@)), ("properties"@, JsonSpec::Object(Seq::empty()))],
        ),
{
    lemma_replace_char(func.function_path@, '.', '_');
}

/// What a called tool reaches: the function whose path is the tool's name
/// with each `_` turned into `.` and every other character kept in place.
pub proof fn lemma_called_function_path(tool: Seq<char>)
    ensures
        function_path_of(tool).len() == tool.len(),
        forall|i: int|
            0 <= i < tool.len() ==> #[trigger] function_path_of(tool)[i] == (if tool[i] == '_' {
                '.'
            } else {
                tool[i]
            }),
{
    lemma_replace_char(tool, '_', '.');
}

/// A text answer is made of exactly one text content, that text, and the
/// error flag given.
pub proof fn lemma_text_answer(r: ToolCallResult, text: Seq<char>, is_error: bool)
    requires
        text_answer(r, text, is_error),
    ensures
        r.is_error == is_error,
        r.content@.len() == 1,
        r.content@[0] matches ToolContent::Text { text: t } && t@ == text,
{
}

/// The input schema of a tool whose function declares none.
pub fn default_schema() -> (r: JsonValue)
    ensures
        r@ == default_input_schema(),
{
    let mut members: Vec<JsonMember> = Vec::new();
    push_member(&mut members, "type", JsonValue::text("object"));
    push_member(&mut members, "properties", JsonValue::empty_object());
    let r = JsonValue::Object(members);
    assert(members_view(members@) =~= seq![
        ("type"@, JsonSpec::Str("object"@)),
        ("properties"@, JsonSpec::Object(Seq::empty())),
    ]);
    r
}

/// A tool answer made of one text.
fn text_result(text: String, is_error: bool) -> (r: ToolCallResult)
    ensures
        text_answer(r, text@, is_error),
{
    let mut content: Vec<ToolContent> = Vec::new();
    content.push(ToolContent::Text { text });
    ToolCallResult { content, is_error }
}

impl ToolsHandler {
    pub fn new() -> (r: ToolsHandler) {
        ToolsHandler {  }
    }

    /// The MCP tool that offers the engine function `func`.
    pub fn function_to_tool(func: &FunctionInfo) -> (tool: McpTool)
        ensures
            describes(tool, *func),
    {
        let name = replace_char_in(func.function_path.as_str(), '.', '_');
        let description = match &func.description {
            Some(d) => Some(d.clone()),
            None => None,
        };
        let input_schema = match &func.request_format {
            Some(schema) => schema.duplicate(),
            None => default_schema(),
        };
        McpTool { name, description, input_schema }
    }

    /// The answer to `tools/list`, from the outcome of listing the engine's
    /// functions: one tool per function, in order; no tool where listing failed.
    pub fn list(&self, functions: Result<Vec<FunctionInfo>, String>) -> (r: ToolsListResult)
        ensures
            match functions {
                Ok(fs) => r.tools@.len() == fs@.len() && forall|i: int|
                    0 <= i < fs@.len() ==> #[trigger] describes(r.tools@[i], fs@[i]),
                Err(_) => r.tools@.len() == 0,
            },
    {
        match functions {
            Ok(fs) => {
                let mut tools: Vec<McpTool> = Vec::new();
                let mut i: usize = 0;
                while i < fs.len()
                    invariant
                        i <= fs@.len(),
                        tools@.len() == i,
                        forall|j: int| 0 <= j < i ==> #[trigger] describes(tools@[j], fs@[j]),
                    decreases fs@.len() - i,
                {
                    let tool = Self::function_to_tool(&fs[i]);
                    tools.push(tool);
                    i += 1;
                }
                ToolsListResult { tools }
            },
            Err(_) => ToolsListResult { tools: Vec::new() },
        }
    }

    /// The first half of `tools/call`: from the parameters (absent, not
    /// readable with the reason given, or read), either the engine call to
    /// make, or the error answer.
    pub fn call(&self, params: Option<Result<ToolCallParams, String>>) -> (r: Result<
        ToolInvocation,
        ToolCallResult,
    >)
        ensures
            match params {
                None => r matches Err(answer) && text_answer(answer, "Missing params"@, true),
                Some(Err(reason)) => r matches Err(answer) && text_answer(
                    answer,
                    "Invalid params: "@ + reason@,
                    true,
                ),
                Some(Ok(p)) => r matches Ok(inv) && inv.function_path@ == function_path_of(p.name@)
                    && inv.arguments == p.arguments,
            },
    {
        match params {
            None => Err(text_result(owned("Missing params"), true)),
            Some(Err(reason)) => Err(text_result(join("Invalid params: ", reason.as_str()), true)),
            Some(Ok(p)) => {
                let function_path = replace_char_in(p.name.as_str(), '_', '.');
                Ok(ToolInvocation { function_path, arguments: p.arguments })
            },
        }
    }

    /// The second half of `tools/call`: the answer from the outcome of the
    /// engine call, either the result shown as (pretty) JSON text or the
    /// failure's reason.
    pub fn call_finished(&self, outcome: Result<JsonValue, String>) -> (r: ToolCallResult)
        ensures
            match outcome {
                Ok(result) => text_answer(r, shown_as(result@), false),
                Err(reason) => text_answer(r, "Error: "@ + reason@, true),
            },
            outcome matches Ok(result) ==> (pretty_json(result@) matches Some(t) ==> text_answer(
                r,
                t,
                false,
            )),
            outcome matches Ok(result) ==> (pretty_json(result@) is None ==> text_answer(
                r,
                compact_json(result@),
                false,
            )),
    {
        match outcome {
            Ok(result) => {
                proof {
                    lemma_shown_as_renders(result@);
                }
                text_result(show(&result), false)
            },
            Err(reason) => text_result(join("Error: ", reason.as_str()), true),
        }
    }
}

} // verus!

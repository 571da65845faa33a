//! JSON text: reading a document from text and rendering one as text, by
//! serde_json.

use vstd::prelude::*;
use crate::json::{JsonMember, JsonNumber, JsonSpec, JsonValue};
use serde_json::Value;

verus! {

/// serde_json's JSON document, carried through opaquely.
#[verifier::external_type_specification]
#[verifier::external_body]
pub struct ExValue(Value);

/// What serde_json reads from the text `text`: the document, or the
/// description of why the text is not JSON.
pub uninterp spec fn parsed_json(text: Seq<char>) -> Result<JsonSpec, Seq<char>>;

/// serde_json's pretty rendering of a document (two-space indents), where it
/// renders one.
pub uninterp spec fn pretty_json(v: JsonSpec) -> Option<Seq<char>>;

/// serde_json's compact rendering of a document (its `Display`).
pub uninterp spec fn compact_json(v: JsonSpec) -> Seq<char>;

/// The library's form of a serde_json document; a number that is not an
/// integer is kept as the decimal text serde_json writes for it.
#[verifier::external_body]
fn from_value(v: Value) -> JsonValue {
    match v {
        Value::Null => JsonValue::Null,
        Value::Bool(b) => JsonValue::Bool(b),
        Value::Number(n) => JsonValue::Number(match (n.as_u64(), n.as_i64()) {
            (Some(u), _) => JsonNumber::PosInt(u),
            (None, Some(i)) => JsonNumber::NegInt(i),
            (None, None) => JsonNumber::Float(n.to_string()),
        }),
        Value::String(s) => JsonValue::Str(s),
        Value::Array(items) => JsonValue::Array(items.into_iter().map(from_value).collect()),
        Value::Object(map) => JsonValue::Object(
            map.into_iter().map(|(key, value)| JsonMember { key, value: from_value(value) }).collect(),
        ),
    }
}

/// serde_json's form of a document of the library; a decimal text is read
/// back into the number it writes.
#[verifier::external_body]
fn to_value(v: &JsonValue) -> Value {
    match v {
        JsonValue::Null => Value::Null,
        JsonValue::Bool(b) => Value::Bool(*b),
        JsonValue::Number(JsonNumber::PosInt(u)) => Value::from(*u),
        JsonValue::Number(JsonNumber::NegInt(i)) => Value::from(*i),
        JsonValue::Number(JsonNumber::Float(s)) => serde_json::from_str::<Value>(s).unwrap_or(Value::Null),
        JsonValue::Str(s) => Value::String(s.clone()),
        JsonValue::Array(items) => Value::Array(items.iter().map(to_value).collect()),
        JsonValue::Object(members) => Value::Object(
            members.iter().map(|m| (m.key.clone(), to_value(&m.value))).collect::<serde_json::Map<String, Value>>(),
        ),
    }
}

/// Reads a JSON document from `text` with `serde_json::from_str`.
/// Trusted: the contract says only that the document, or the reason for
/// failing, is what serde_json gives for this text (named `parsed_json`).
#[verifier::external_body]
pub fn parse_json(text: &str) -> (r: Result<JsonValue, String>)
    ensures
        match r {
            Ok(v) => parsed_json(text@) == Ok::<JsonSpec, Seq<char>>(v@),
            Err(e) => parsed_json(text@) == Err::<JsonSpec, Seq<char>>(e@),
        },
{
    serde_json::from_str::<Value>(text).map(from_value).map_err(|e| e.to_string())
}

/// Renders `v` with `serde_json::to_string_pretty`.
/// Trusted: the contract says only that the text is serde_json's pretty
/// rendering of this document (named `pretty_json`), or none where it fails.
#[verifier::external_body]
pub fn render_pretty(v: &JsonValue) -> (r: Option<String>)
    ensures
        match r {
            Some(s) => pretty_json(v@) == Some(s@),
            None => pretty_json(v@) is None,
        },
{
    serde_json::to_string_pretty(&to_value(v)).ok()
}

/// Renders `v` with serde_json's `Display` (compact JSON).
/// Trusted: the contract says only that the text is serde_json's compact
/// rendering of this document (named `compact_json`).
#[verifier::external_body]
pub fn render_compact(v: &JsonValue) -> (r: String)
    ensures
        r@ == compact_json(v@),
{
    to_value(v).to_string()
}

/// The text a document is shown as: its pretty rendering, or its compact
/// rendering where serde_json gives no pretty one.
pub open spec fn shown_as(v: JsonSpec) -> Seq<char> {
    match pretty_json(v) {
        Some(t) => t,
        None => compact_json(v),
    }
}

/// The text a document is shown as renders that document itself: its pretty
/// rendering where serde_json gives one, its compact rendering otherwise.
pub proof fn lemma_shown_as_renders(v: JsonSpec)
    ensures
        pretty_json(v) matches Some(t) ==> shown_as(v) == t,
        pretty_json(v) is None ==> shown_as(v) == compact_json(v),
{
}

/// The text `v` is shown as.
pub fn show(v: &JsonValue) -> (r: String)
    ensures
        r@ == shown_as(v@),
        pretty_json(v@) matches Some(t) ==> r@ == t,
        pretty_json(v@) is None ==> r@ == compact_json(v@),
{
    match render_pretty(v) {
        Some(s) => s,
        None => render_compact(v),
    }
}

} // verus!

//! A JSON value model used by the protocol logic, with its mathematical view.

use vstd::prelude::*;

verus! {

/// A JSON number, kept without floating point: an integer by its value, any
/// other number by its decimal text.
#[derive(Debug, PartialEq, Eq)]
pub enum JsonNumber {
    PosInt(u64),
    NegInt(i64),
    Float(String),
}

/// The view of a JSON number.
pub enum NumberSpec {
    PosInt(u64),
    NegInt(i64),
    Float(Seq<char>),
}

/// The view of a JSON number: a decimal text as its characters.
pub open spec fn number_view(n: JsonNumber) -> NumberSpec {
    match n {
        JsonNumber::PosInt(u) => NumberSpec::PosInt(u),
        JsonNumber::NegInt(i) => NumberSpec::NegInt(i),
        JsonNumber::Float(s) => NumberSpec::Float(s@),
    }
}

/// A JSON document.
#[derive(Debug, PartialEq, Eq)]
pub enum JsonValue {
    Null,
    Bool(bool),
    Number(JsonNumber),
    Str(String),
    Array(Vec<JsonValue>),
    Object(Vec<JsonMember>),
}

/// One `"key": value` pair of a JSON object, in the order it was written.
#[derive(Debug, PartialEq, Eq)]
pub struct JsonMember {
    pub key: String,
    pub value: JsonValue,
}

/// The mathematical view of a JSON document.
pub enum JsonSpec {
    Null,
    Bool(bool),
    Number(NumberSpec),
    Str(Seq<char>),
    Array(Seq<JsonSpec>),
    Object(Seq<(Seq<char>, JsonSpec)>),
}

/// The view of a JSON document: its strings as character sequences.
pub open spec fn json_view(v: JsonValue) -> JsonSpec
    decreases v,
{
    match v {
        JsonValue::Null => JsonSpec::Null,
        JsonValue::Bool(b) => JsonSpec::Bool(b),
        JsonValue::Number(n) => JsonSpec::Number(number_view(n)),
        JsonValue::Str(s) => JsonSpec::Str(s@),
        JsonValue::Array(items) => JsonSpec::Array(items_view(items@)),
        JsonValue::Object(members) => JsonSpec::Object(members_view(members@)),
    }
}

/// The views of a sequence of JSON values, element by element.
pub open spec fn items_view(s: Seq<JsonValue>) -> Seq<JsonSpec>
    decreases s,
{
    if s.len() == 0 {
        Seq::empty()
    } else {
        items_view(s.drop_last()).push(json_view(s.last()))
    }
}

/// The views of a sequence of object members, element by element.
pub open spec fn members_view(s: Seq<JsonMember>) -> Seq<(Seq<char>, JsonSpec)>
    decreases s,
{
    if s.len() == 0 {
        Seq::empty()
    } else {
        members_view(s.drop_last()).push((s.last().key@, json_view(s.last().value)))
    }
}

impl View for JsonValue {
    type V = JsonSpec;

    open spec fn view(&self) -> JsonSpec {
        json_view(*self)
    }
}

/// Viewing a sequence with one more value appends that value's view.
pub proof fn lemma_items_view_push(s: Seq<JsonValue>, x: JsonValue)
    ensures
        items_view(s.push(x)) == items_view(s).push(json_view(x)),
{
    assert(s.push(x).drop_last() =~= s);
}

/// Viewing a sequence with one more member appends that member's view.
pub proof fn lemma_members_view_push(s: Seq<JsonMember>, x: JsonMember)
    ensures
        members_view(s.push(x)) == members_view(s).push((x.key@, json_view(x.value))),
{
    assert(s.push(x).drop_last() =~= s);
}

/// Appends the member `"key": value` to the members of an object under construction.
pub fn push_member(members: &mut Vec<JsonMember>, key: &str, value: JsonValue)
    ensures
        members_view(final(members)@) == members_view(old(members)@).push((key@, value@)),
{
    let m = JsonMember { key: String::from_str(key), value };
    proof {
        lemma_members_view_push(members@, m);
    }
    members.push(m);
}

/// Appends `value` to the items of an array under construction.
pub fn push_item(items: &mut Vec<JsonValue>, value: JsonValue)
    ensures
        items_view(final(items)@) == items_view(old(items)@).push(value@),
{
    proof {
        lemma_items_view_push(items@, value);
    }
    items.push(value);
}

impl JsonValue {
    /// The JSON string holding the characters of `s`.
    pub fn text(s: &str) -> (r: JsonValue)
        ensures
            r@ == JsonSpec::Str(s@),
    {
        JsonValue::Str(String::from_str(s))
    }

    /// The object `{}`.
    pub fn empty_object() -> (r: JsonValue)
        ensures
            r@ == JsonSpec::Object(Seq::empty()),
    {
        JsonValue::Object(Vec::new())
    }

    /// The array of the JSON strings `items`, in order.
    pub fn text_array(items: &[&str]) -> (r: JsonValue)
        ensures
            r@ == JsonSpec::Array(items@.map_values(|s: &str| JsonSpec::Str(s@))),
    {
        let mut out: Vec<JsonValue> = Vec::new();
        let mut i: usize = 0;
        while i < items.len()
            invariant
                i <= items@.len(),
                items_view(out@) == items@.take(i as int).map_values(|s: &str| JsonSpec::Str(s@)),
            decreases items@.len() - i,
        {
            push_item(&mut out, JsonValue::text(items[i]));
            assert(items@.take(i + 1) =~= items@.take(i as int).push(items@[i as int]));
            assert(items@.take(i + 1).map_values(|s: &str| JsonSpec::Str(s@)) =~= items@.take(
                i as int,
            ).map_values(|s: &str| JsonSpec::Str(s@)).push(JsonSpec::Str(items@[i as int]@)));
            i += 1;
        }
        assert(items@.take(i as int) =~= items@);
        JsonValue::Array(out)
    }

    /// A copy of this document, equal to it in every part.
    pub fn duplicate(&self) -> (r: JsonValue)
        ensures
            r@ == self@,
        decreases self,
    {
        match self {
            JsonValue::Null => JsonValue::Null,
            JsonValue::Bool(b) => JsonValue::Bool(*b),
            JsonValue::Number(JsonNumber::PosInt(u)) => JsonValue::Number(JsonNumber::PosInt(*u)),
            JsonValue::Number(JsonNumber::NegInt(i)) => JsonValue::Number(JsonNumber::NegInt(*i)),
            JsonValue::Number(JsonNumber::Float(s)) => JsonValue::Number(JsonNumber::Float(s.clone())),
            JsonValue::Str(s) => JsonValue::Str(s.clone()),
            JsonValue::Array(items) => {
                let mut out: Vec<JsonValue> = Vec::new();
                let mut i: usize = 0;
                while i < items.len()
                    invariant
                        i <= items@.len(),
                        *self == JsonValue::Array(*items),
                        items_view(out@) == items_view(items@.take(i as int)),
                    decreases items@.len() - i,
                {
                    proof {
                        assert(decreases_to!(*items => items@));
                        assert(decreases_to!(items@ => items@[i as int]));
                        assert(decreases_to!(*self => (*self)->Array_0));
                    }
                    let c = items[i].duplicate();
                    proof {
                        lemma_items_view_push(out@, c);
                        lemma_items_view_push(items@.take(i as int), items@[i as int]);
                        assert(items@.take(i as int).push(items@[i as int]) =~= items@.take(i + 1));
                    }
                    out.push(c);
                    i += 1;
                }
                assert(items@.take(i as int) =~= items@);
                JsonValue::Array(out)
            },
            JsonValue::Object(members) => {
                let mut out: Vec<JsonMember> = Vec::new();
                let mut i: usize = 0;
                while i < members.len()
                    invariant
                        i <= members@.len(),
                        *self == JsonValue::Object(*members),
                        members_view(out@) == members_view(members@.take(i as int)),
                    decreases members@.len() - i,
                {
                    proof {
                        assert(decreases_to!(*members => members@));
                        assert(decreases_to!(members@ => members@[i as int]));
                        assert(decreases_to!(members@[i as int] => members@[i as int].value));
                        assert(decreases_to!(*self => (*self)->Object_0));
                    }
                    let m = JsonMember { key: members[i].key.clone(), value: members[i].value.duplicate() };
                    proof {
                        lemma_members_view_push(out@, m);
                        lemma_members_view_push(members@.take(i as int), members@[i as int]);
                        assert(members@.take(i as int).push(members@[i as int]) =~= members@.take(i + 1));
                    }
                    out.push(m);
                    i += 1;
                }
                assert(members@.take(i as int) =~= members@);
                JsonValue::Object(out)
            },
        }
    }
}

} // verus!

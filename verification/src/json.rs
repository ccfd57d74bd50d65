//! JSON values as plain data, read from text by `serde_json`, and the
//! lookups the library makes in them.
use vstd::prelude::*;
use crate::text::str_eq;

verus! {

#[verifier::external_type_specification]
#[verifier::external_body]
pub struct ExSerdeJsonValue(serde_json::Value);

/// A JSON value. Numbers keep the text `serde_json` writes for them; an
/// object keeps its members in the order `serde_json` iterates them.
#[derive(Debug, PartialEq)]
pub enum JsonValue {
    Null,
    Bool(bool),
    Number(String),
    Text(String),
    Array(Vec<JsonValue>),
    Object(Vec<(String, JsonValue)>),
}

/// The value `serde_json` reads from a text, if the text is JSON.
pub uninterp spec fn parsed_json(text: Seq<char>) -> Option<JsonValue>;

/// `serde_json::from_str::<serde_json::Value>` on `text`, the value written
/// as a `JsonValue`; nothing when the text is not JSON. What the value is
/// depends on the text alone.
#[verifier::external_body]
pub fn parse_json(text: &str) -> (r: Option<JsonValue>)
    ensures
        r == parsed_json(text@),
{
    serde_json::from_str::<serde_json::Value>(text).ok().map(|v| json_from_serde(&v))
}

/// A `serde_json::Value` written as a `JsonValue`, one variant for one,
/// members in the value's own iteration order.
#[verifier::external_body]
fn json_from_serde(v: &serde_json::Value) -> JsonValue {
    match v {
        serde_json::Value::Null => JsonValue::Null,
        serde_json::Value::Bool(b) => JsonValue::Bool(*b),
        serde_json::Value::Number(n) => JsonValue::Number(n.to_string()),
        serde_json::Value::String(s) => JsonValue::Text(s.clone()),
        serde_json::Value::Array(a) => JsonValue::Array(a.iter().map(json_from_serde).collect()),
        serde_json::Value::Object(m) => JsonValue::Object(
            m.iter().map(|(k, x)| (k.clone(), json_from_serde(x))).collect(),
        ),
    }
}

/// The value of the first member named `key`, if any.
pub open spec fn member(fields: Seq<(String, JsonValue)>, key: Seq<char>) -> Option<JsonValue>
    decreases fields.len(),
{
    if fields.len() == 0 {
        None
    } else if fields[0].0@ == key {
        Some(fields[0].1)
    } else {
        member(fields.drop_first(), key)
    }
}

/// The member named `key` of an object; nothing for a missing member or a
/// value that is not an object.
pub open spec fn get_member(v: JsonValue, key: Seq<char>) -> Option<JsonValue> {
    match v {
        JsonValue::Object(fields) => member(fields@, key),
        _ => None,
    }
}

/// The text of a string value.
pub open spec fn text_of(v: Option<JsonValue>) -> Option<Seq<char>> {
    match v {
        Some(JsonValue::Text(s)) => Some(s@),
        _ => None,
    }
}

impl JsonValue {
    /// The member named `key` of an object (`serde_json::Value::get`).
    pub fn get(&self, key: &str) -> (r: Option<&JsonValue>)
        ensures
            match r {
                Some(x) => get_member(*self, key@) == Some(*x),
                None => get_member(*self, key@) is None,
            },
    {
        match self {
            JsonValue::Object(fields) => {
                let mut i: usize = 0;
                assert(fields@.skip(0) =~= fields@);
                while i < fields.len()
                    invariant
                        i <= fields.len(),
                        get_member(*self, key@) == member(fields@, key@),
                        member(fields@, key@) == member(fields@.skip(i as int), key@),
                    decreases fields.len() - i,
                {
                    proof {
                        assert(fields@.skip(i as int).drop_first() =~= fields@.skip(i + 1));
                        assert(fields@.skip(i as int)[0] == fields@[i as int]);
                    }
                    if str_eq(fields[i].0.as_str(), key) {
                        return Some(&fields[i].1);
                    }
                    i = i + 1;
                }
                None
            },
            _ => None,
        }
    }

    /// The text of a string value (`serde_json::Value::as_str`).
    pub fn as_text(&self) -> (r: Option<&str>)
        ensures
            match r {
                Some(t) => text_of(Some(*self)) == Some(t@),
                None => text_of(Some(*self)) is None,
            },
    {
        match self {
            JsonValue::Text(s) => Some(s.as_str()),
            _ => None,
        }
    }
}

} // verus!

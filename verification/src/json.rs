//! A plain-data model of parsed JSON, and the trusted bridge from
//! `serde_json` into it. The codec's decoding rules are verified over
//! this model; only the text-to-tree step is taken on trust.

use vstd::prelude::*;
use vstd::string::StringExecFns;

verus! {

/// A parsed JSON document as plain values. Numbers keep only their
/// textual form: the protocol's codec never reads a number.
pub enum JsonValue {
    Null,
    Bool(bool),
    Num(String),
    Str(String),
    Arr(Vec<JsonValue>),
    Obj(Vec<(String, JsonValue)>),
}

/// First value bound to `key` at or after position `i`.
pub open spec fn lookup_from(fields: Seq<(String, JsonValue)>, key: Seq<char>, i: int) -> Option<
    JsonValue,
>
    decreases fields.len() - i,
{
    if i < 0 || i >= fields.len() {
        None
    } else if fields[i].0@ == key {
        Some(fields[i].1)
    } else {
        lookup_from(fields, key, i + 1)
    }
}

/// First value bound to `key` in an object's field list.
pub open spec fn lookup(fields: Seq<(String, JsonValue)>, key: Seq<char>) -> Option<JsonValue> {
    lookup_from(fields, key, 0)
}

/// String equality by contents.
pub fn eq_str(a: &String, b: &str) -> (r: bool)
    ensures
        r == (a@ == b@),
{
    let t = String::from_str(b);
    *a == t
}

/// Looks `key` up in an object's field list, first match wins.
pub fn obj_get<'a>(fields: &'a Vec<(String, JsonValue)>, key: &str) -> (r: Option<&'a JsonValue>)
    ensures
        (match r {
            Some(v) => lookup(fields@, key@) == Some(*v),
            None => lookup(fields@, key@) is None,
        }),
{
    let n = fields.len();
    let mut i: usize = 0;
    while i < n
        invariant
            i <= n,
            n == fields@.len(),
            lookup(fields@, key@) == lookup_from(fields@, key@, i as int),
        decreases n - i,
    {
        if eq_str(&fields[i].0, key) {
            return Some(&fields[i].1);
        }
        i += 1;
    }
    None
}

#[verifier::external_type_specification]
#[verifier::external_body]
pub struct ExSerdeValue(serde_json::Value);

/// What `serde_json::from_str::<serde_json::Value>` yields on a given
/// text, carried into this crate's model: `None` where serde_json
/// rejects the text (not valid JSON, or nested beyond its recursion
/// limit). The result depends on the text alone.
pub uninterp spec fn json_of(s: Seq<char>) -> Option<JsonValue>;

/// Carries a `serde_json::Value` over into the model, variant by
/// variant; a number keeps only its textual form. Called only from the
/// body of `parse_json` below.
#[verifier::external_body]
fn model_of_value(v: &serde_json::Value) -> JsonValue {
    match v {
        serde_json::Value::Null => JsonValue::Null,
        serde_json::Value::Bool(b) => JsonValue::Bool(*b),
        serde_json::Value::Number(n) => JsonValue::Num(n.to_string()),
        serde_json::Value::String(s) => JsonValue::Str(s.clone()),
        serde_json::Value::Array(a) => JsonValue::Arr(a.iter().map(model_of_value).collect()),
        serde_json::Value::Object(m) => JsonValue::Obj(
            m.iter().map(|(k, x)| (k.clone(), model_of_value(x))).collect(),
        ),
    }
}

/// Relies on `serde_json::from_str`: parses a JSON text into a value
/// tree, failing on whatever serde_json rejects — text that is not
/// valid JSON, or a document nested beyond its recursion limit; the
/// outcome is a function of the text alone.
#[verifier::external_body]
pub(crate) fn parse_json(s: &str) -> (r: Option<JsonValue>)
    ensures
        r == json_of(s@),
{
    match serde_json::from_str::<serde_json::Value>(s) {
        Ok(v) => Some(model_of_value(&v)),
        Err(_) => None,
    }
}

} // verus!

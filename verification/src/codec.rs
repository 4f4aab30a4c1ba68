use vstd::prelude::*;
use vstd::string::*;
use crate::error::RpcError;
use crate::json::JsonValue;
use crate::request::RpcRequest;

verus! {

/// Declares `serde_json::Value`, the outside crate's document type, so
/// that the conversion helpers below can carry it. It stays opaque: all
/// reasoning happens on this crate's own `JsonValue`.
#[verifier::external_type_specification]
#[verifier::external_body]
pub struct ExSerdeValue(serde_json::Value);

/// The deepest container nesting that `serde_json::from_str` accepts:
/// its parser spends one level of a budget of 128 on every array or
/// object it enters and fails once the budget is gone, so 127 nested
/// containers parse and 128 do not.
pub const MAX_PARSE_DEPTH: u64 = 127;

/// What `serde_json::from_str` makes of a text: the parsed document,
/// converted into this crate's model, or `None` where parsing fails.
/// The result depends on the text alone.
pub uninterp spec fn json_of_text(s: Seq<char>) -> Option<JsonValue>;

/// Relies on the `serde_json::Value` constructors: rebuilds the document
/// one variant at a time, so that serde_json can serialize it.
#[verifier::external_body]
fn to_serde(v: &JsonValue) -> serde_json::Value {
    match v {
        JsonValue::Null => serde_json::Value::Null,
        JsonValue::Bool(b) => serde_json::Value::Bool(*b),
        JsonValue::UInt(n) => serde_json::Value::Number(serde_json::Number::from(*n)),
        JsonValue::Str(s) => serde_json::Value::String(s.clone()),
        JsonValue::Arr(items) => serde_json::Value::Array(items.iter().map(to_serde).collect()),
        JsonValue::Obj(fields) => serde_json::Value::Object(
            fields.iter().map(|pair| (pair.0.clone(), to_serde(&pair.1))).collect(),
        ),
    }
}

/// Relies on the accessors of `serde_json::Value`: reads the document one
/// variant at a time into this crate's model. A number without a `u64`
/// representation becomes `Null`, which the accessors treat as absent.
#[verifier::external_body]
fn from_serde(v: &serde_json::Value) -> JsonValue {
    match v {
        serde_json::Value::Null => JsonValue::Null,
        serde_json::Value::Bool(b) => JsonValue::Bool(*b),
        serde_json::Value::Number(n) => match n.as_u64() {
            Some(u) => JsonValue::UInt(u),
            None => JsonValue::Null,
        },
        serde_json::Value::String(s) => JsonValue::Str(s.clone()),
        serde_json::Value::Array(items) => JsonValue::Arr(items.iter().map(from_serde).collect()),
        serde_json::Value::Object(fields) => JsonValue::Obj(
            fields.iter().map(|(k, val)| (k.clone(), from_serde(val))).collect(),
        ),
    }
}

/// Relies on `serde_json::to_string`, which writes strings escaped,
/// integers in decimal with full `u64` precision, and — with the
/// `preserve_order` feature — object members in insertion order. A
/// document whose objects all have distinct keys therefore parses back
/// to the same value, provided it also nests within the parser's
/// recursion limit; deeper documents serialize fine but fail to parse.
#[verifier::external_body]
pub fn json_to_text(v: &JsonValue) -> (r: String)
    ensures
        v.keys_distinct() && v.depth_below(MAX_PARSE_DEPTH as nat) ==> json_of_text(r@) == Some(
            *v,
        ),
{
    serde_json::to_string(&to_serde(v)).unwrap_or_default()
}

/// Relies on `serde_json::from_str`: its result is a function of the
/// text alone. Parsing fails on malformed JSON and on documents nested
/// beyond the parser's recursion limit.
#[verifier::external_body]
pub fn text_to_json(s: &str) -> (r: Option<JsonValue>)
    ensures
        r == json_of_text(s@),
{
    match serde_json::from_str::<serde_json::Value>(s) {
        Ok(v) => Some(from_serde(&v)),
        Err(_) => None,
    }
}

/// Turns the appliance's reply body into a document, or reports the
/// protocol violation: a body that is not valid JSON.
pub fn parse_response(s: &str) -> (r: Result<JsonValue, RpcError>)
    ensures
        r matches Ok(v) ==> json_of_text(s@) == Some(v),
        r matches Err(e) ==> e == RpcError::Protocol && json_of_text(s@) is None,
{
    match text_to_json(s) {
        Some(v) => Ok(v),
        None => Err(RpcError::Protocol),
    }
}

/// Law: serializing a document with distinct keys, nested within the
/// parser's limit, and parsing the text back yields the document
/// unchanged.
pub fn reserialize(v: &JsonValue) -> (r: Option<JsonValue>)
    ensures
        v.keys_distinct() && v.depth_below(MAX_PARSE_DEPTH as nat) ==> r == Some(*v),
{
    let text = json_to_text(v);
    text_to_json(text.as_str())
}

/// Law: a request's serialized body, echoed back as text and parsed
/// again, reconstructs the same method and id. The parameters must keep
/// their keys distinct and nest one level inside the parser's limit,
/// which every builder of this crate does by a wide margin.
pub fn echoed_method_and_id(req: RpcRequest) -> (r: Option<(String, u64)>)
    ensures
        req.params.keys_distinct() && req.params.depth_below((MAX_PARSE_DEPTH - 1) as nat) ==> (
        r matches Some(p) && p.0@ == req.method@ && p.1 == req.id),
{
    let body = req.to_json();
    proof {
        if req.params.depth_below((MAX_PARSE_DEPTH - 1) as nat) {
            assert(body.depth_below(MAX_PARSE_DEPTH as nat));
        }
    }
    match reserialize(&body) {
        Some(echoed) => {
            let m = match echoed.get("method") {
                Some(v) => match v.as_str() {
                    Some(s) => String::from_str(s),
                    None => {
                        return None;
                    },
                },
                None => {
                    return None;
                },
            };
            let i = match echoed.get("id") {
                Some(v) => match v.as_u64() {
                    Some(n) => n,
                    None => {
                        return None;
                    },
                },
                None => {
                    return None;
                },
            };
            Some((m, i))
        },
        None => None,
    }
}

} // verus!

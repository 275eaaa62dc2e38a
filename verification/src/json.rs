//! JSON documents as plain values.
//!
//! The engine's configuration arrives as text. Turning that text into a tree
//! is the JSON grammar's business and is left to `serde_json` behind the
//! trusted items below; everything the engine then decides about the tree
//! (whether it is an array of well-formed rule records) is verified code over
//! the `Json` type of this module.

use vstd::prelude::*;

verus! {

/// A JSON document as a plain value. A number is carried as its decimal
/// text, exactly as the parser renders it; an object's fields come in the
/// parser's order with distinct names.
pub enum Json {
    Null,
    Bool(bool),
    Num(String),
    Str(String),
    Arr(Vec<Json>),
    Obj(Vec<(String, Json)>),
}

/// The tree that a piece of text parses to: `None` when the text is not one
/// well-formed JSON document. The parse depends on the text alone.
pub uninterp spec fn json_of(text: Seq<char>) -> Option<Json>;

#[verifier::external_type_specification]
#[verifier::external_body]
pub struct ExValue(serde_json::Value);

/// Relies on `serde_json::Value`: the parsed tree is carried over variant by
/// variant, one arm each; a number becomes its decimal text (`Number`'s
/// `Display`: plain digits for integers, the shortest round-trip form for
/// other finite numbers).
#[verifier::external_body]
fn json_of_value(v: serde_json::Value) -> Json {
    match v {
        serde_json::Value::Null => Json::Null,
        serde_json::Value::Bool(b) => Json::Bool(b),
        serde_json::Value::Number(n) => Json::Num(n.to_string()),
        serde_json::Value::String(s) => Json::Str(s),
        serde_json::Value::Array(a) => Json::Arr(a.into_iter().map(json_of_value).collect()),
        serde_json::Value::Object(m) => {
            Json::Obj(m.into_iter().map(|p| (p.0, json_of_value(p.1))).collect())
        },
    }
}

/// Relies on `serde_json::from_str::<serde_json::Value>`: it returns `Ok`
/// exactly when the whole text is one well-formed JSON document (within the
/// parser's nesting-depth limit), and the parsed tree is a function of the
/// text alone — which is all this contract claims.
#[verifier::external_body]
pub(crate) fn parse_json_text(s: &str) -> (r: Option<Json>)
    ensures
        r == json_of(s@),
{
    match serde_json::from_str::<serde_json::Value>(s) {
        Ok(v) => Some(json_of_value(v)),
        Err(_) => None,
    }
}

} // verus!

//! The bridge from raw response text to the [`Json`] tree.
//!
//! Parsing is done by serde_json; the two functions that touch its
//! `Value` type are trusted, and everything downstream works on the
//! crate's own tree.  A body that is not JSON at all yields `None`,
//! never an error: the upstream service is known to return non-JSON
//! error bodies.

use vstd::prelude::*;
use crate::json::Json;

verus! {

#[verifier::external_type_specification]
#[verifier::external_body]
pub struct ExValue(serde_json::Value);

/// The tree a parsed `serde_json::Value` holds, as this crate's own
/// [`Json`] type.
pub uninterp spec fn value_tree(v: serde_json::Value) -> Json;

/// What parsing a body yields: `None` exactly when the text is not
/// valid JSON.  Parsing is a function of the characters alone.
pub uninterp spec fn parsed_json(s: Seq<char>) -> Option<Json>;

/// Relies on `serde_json::from_str::<Value>`: whether it succeeds, and
/// the value it returns, depend on the input text alone.
#[verifier::external_body]
fn parse_value(s: &str) -> (r: Option<serde_json::Value>)
    ensures
        match r {
            Some(v) => parsed_json(s@) == Some(value_tree(v)),
            None => parsed_json(s@) is None,
        },
{
    serde_json::from_str::<serde_json::Value>(s).ok()
}

/// Relies on `serde_json::Value` being exactly the six shapes matched
/// here; each arm only moves the parsed data into this crate's tree
/// (numbers keep their serialized digits, via `Number`'s `Display`).
#[verifier::external_body]
fn tree_of(v: &serde_json::Value) -> (r: Json)
    ensures
        r == value_tree(*v),
{
    match v {
        serde_json::Value::Null => Json::Null,
        serde_json::Value::Bool(b) => Json::Bool(*b),
        serde_json::Value::Number(n) => Json::Num(n.to_string()),
        serde_json::Value::String(s) => Json::Str(s.clone()),
        serde_json::Value::Array(a) => Json::Arr(a.iter().map(tree_of).collect()),
        serde_json::Value::Object(o) => {
            Json::Obj(o.iter().map(|(k, x)| (k.clone(), tree_of(x))).collect())
        },
    }
}

/// Parses a response body into a [`Json`] tree, or `None` when the body
/// is not valid JSON.
pub fn parse_json(body: &str) -> (r: Option<Json>)
    ensures
        r == parsed_json(body@),
{
    match parse_value(body) {
        Some(v) => Some(tree_of(&v)),
        None => None,
    }
}

} // verus!

//! TOML files, read into the library's own trees.

use crate::json::{lift, Json, JsonValue};
use vstd::prelude::*;

verus! {

#[verifier::external_type_specification]
#[verifier::external_body]
pub struct ExTomlValue(toml::Value);

/// What `toml` reads from a text: the value, or what it says of a text that
/// is no TOML document.
pub uninterp spec fn toml_read(text: Seq<char>) -> Result<toml::Value, Seq<char>>;

/// The tree that stands for a TOML value.
pub uninterp spec fn toml_tree(value: toml::Value) -> JsonValue;

/// `str::parse` for `toml::Value`; where it refuses, the error that it
/// gives, in words.
#[verifier::external_body]
fn read_toml(text: &str) -> (r: Result<toml::Value, String>)
    ensures
        match r {
            Ok(value) => toml_read(text@) == Ok::<toml::Value, Seq<char>>(value),
            Err(refusal) => toml_read(text@) == Err::<toml::Value, Seq<char>>(refusal@),
        },
{
    text.parse::<toml::Value>().map_err(|e| e.to_string())
}

/// Takes a `toml::Value` apart, variant by variant, into a tree of this
/// library: a table becomes an object, with its entries in the order of
/// `toml`'s `Map::into_iter`; an integer becomes the number that
/// `serde_json` makes of it; and a float what `serde_json::Value::from`
/// makes of it. A date and time has no counterpart in JSON. It becomes
/// what `serde_json::to_value` makes of it, which is no string: an object
/// with one member, which holds under `toml`'s own key the text that `toml`
/// writes for it.
#[verifier::external_body]
fn lift_toml(value: toml::Value) -> (r: Json)
    ensures
        r@ == toml_tree(value),
{
    match value {
        toml::Value::String(s) => Json::String(s),
        toml::Value::Integer(i) => Json::Number(i.into()),
        toml::Value::Float(x) => lift(serde_json::Value::from(x)),
        toml::Value::Boolean(b) => Json::Bool(b),
        toml::Value::Datetime(d) => lift(serde_json::to_value(d).unwrap_or_default()),
        toml::Value::Array(a) => Json::Array(a.into_iter().map(lift_toml).collect()),
        toml::Value::Table(t) => Json::Object(
            t.into_iter().map(|(k, v)| (k, lift_toml(v))).collect(),
        ),
    }
}

/// The tree that a TOML text stands for; `None` where the text is no TOML
/// document.
pub open spec fn toml_parsed(text: Seq<char>) -> Option<JsonValue> {
    match toml_read(text) {
        Ok(value) => Some(toml_tree(value)),
        Err(_) => None,
    }
}

/// What `toml` says of a text that is no TOML document.
pub open spec fn toml_refusal(text: Seq<char>) -> Seq<char> {
    match toml_read(text) {
        Ok(_) => Seq::empty(),
        Err(refusal) => refusal,
    }
}

/// Reads a TOML document. Where the text is none, the error says in words
/// why.
pub fn parse_toml(text: &str) -> (r: Result<Json, String>)
    ensures
        match r {
            Ok(j) => toml_parsed(text@) == Some(j@),
            Err(refusal) => toml_parsed(text@) is None && refusal@ == toml_refusal(text@),
        },
{
    match read_toml(text) {
        Ok(value) => Ok(lift_toml(value)),
        Err(refusal) => Err(refusal),
    }
}

} // verus!

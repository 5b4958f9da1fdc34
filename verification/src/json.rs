//! Reading string fields of JSON tool-call arguments.

use vstd::prelude::*;

verus! {

/// What a top-level key of a JSON object holds.
pub enum JsonLookup {
    /// The text is no JSON object, or the object has no such key.
    Missing,
    /// The key holds a string.
    Str(Seq<char>),
    /// The key holds a value that is not a string.
    NonStr,
}

/// Executable form of `JsonLookup`.
#[derive(Debug, Clone)]
pub enum JsonField {
    Missing,
    Str(String),
    NonStr,
}

/// Abstract view of a `JsonField`.
pub open spec fn field_view(f: JsonField) -> JsonLookup {
    match f {
        JsonField::Missing => JsonLookup::Missing,
        JsonField::Str(s) => JsonLookup::Str(s@),
        JsonField::NonStr => JsonLookup::NonStr,
    }
}

/// What `serde_json` finds under `key` when it parses `text` as a JSON value and indexes it
/// with `Value::get` (`Missing` when the text does not parse or the key is absent).
pub uninterp spec fn json_lookup(text: Seq<char>, key: Seq<char>) -> JsonLookup;

/// `serde_json::from_str::<serde_json::Value>`, then `Value::get(key)` and `Value::as_str`;
/// the result is the name `json_lookup` of the text and the key.
#[verifier::external_body]
pub fn lookup_json_field(text: &str, key: &str) -> (r: JsonField)
    ensures
        field_view(r) == json_lookup(text@, key@),
{
    match serde_json::from_str::<serde_json::Value>(text) {
        Ok(v) => match v.get(key) {
            Some(serde_json::Value::String(s)) => JsonField::Str(s.clone()),
            Some(_) => JsonField::NonStr,
            None => JsonField::Missing,
        },
        Err(_) => JsonField::Missing,
    }
}

/// The first of two keys that is present (`get(k1).or_else(|| get(k2))`).
pub open spec fn lookup_either(text: Seq<char>, k1: Seq<char>, k2: Seq<char>) -> JsonLookup {
    match json_lookup(text, k1) {
        JsonLookup::Missing => json_lookup(text, k2),
        l => l,
    }
}

/// The string held by a lookup, or `default` (`and_then(as_str).unwrap_or(default)`).
pub open spec fn str_or(l: JsonLookup, default: Seq<char>) -> Seq<char> {
    match l {
        JsonLookup::Str(s) => s,
        _ => default,
    }
}

} // verus!

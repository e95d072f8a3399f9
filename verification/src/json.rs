//! The serde_json boundary of the config store.
//!
//! The store's logic works on [`crate::config::JsonShape`] entries; this
//! module holds the few trusted calls that carry a document across the
//! serde_json line: parsing text to a JSON value, taking an object root
//! apart into entries, and serializing entries back to pretty-printed text.
//! Parsing and serialization are deterministic in their arguments, so each
//! call's result is given a name, and the callers' own contracts are exact
//! over those names.

use vstd::prelude::*;

use crate::config::JsonShape;
use crate::config::JsonVal;
use crate::config::entries_view;
use crate::config::keys_unique;

verus! {

#[verifier::external_type_specification]
#[verifier::external_body]
pub struct ExJsonValue(serde_json::Value);

#[verifier::external_type_specification]
#[verifier::external_body]
pub struct ExJsonError(serde_json::Error);

/// What serde_json's parser makes of a text: the parsed root value, or
/// nothing when the text is not one well-formed JSON document.
pub uninterp spec fn parsed_root_of(s: Seq<char>) -> Option<serde_json::Value>;

/// What a JSON value holds when its root is an object: its entries, in the
/// map's key order, each value classified as the store reads it; nothing
/// for any other root.
pub uninterp spec fn object_entries_of(v: serde_json::Value) -> Option<
    Seq<(Seq<char>, JsonVal)>,
>;

/// The JSON value a shape stands for.
pub uninterp spec fn value_of_shape(s: JsonVal) -> serde_json::Value;

/// What serde_json's pretty serializer makes of an object holding the given
/// entries (later duplicates of a key winning), or nothing when it refuses.
pub uninterp spec fn written_object_of(entries: Seq<(Seq<char>, serde_json::Value)>) -> Option<
    Seq<char>,
>;

/// The entries a serialization call is handed, as key text and value.
pub open spec fn write_entries_view(s: Seq<(String, serde_json::Value)>) -> Seq<
    (Seq<char>, serde_json::Value),
> {
    s.map_values(|p: (String, serde_json::Value)| (p.0@, p.1))
}

/// Relies on serde_json::Value's Clone: a clone is the same JSON value.
pub assume_specification[ <serde_json::Value as Clone>::clone ](v: &serde_json::Value) -> (r:
    serde_json::Value)
    ensures
        r == *v,
;

/// Relies on serde_json::from_str::<serde_json::Value>: parses the text as
/// one JSON document, succeeding exactly on well-formed input; the result
/// depends on the text alone.
#[verifier::external_body]
pub(crate) fn json_parse(s: &str) -> (r: Result<serde_json::Value, serde_json::Error>)
    ensures
        r is Ok <==> parsed_root_of(s@) is Some,
        r matches Ok(v) ==> parsed_root_of(s@) == Some(v),
{
    serde_json::from_str::<serde_json::Value>(s)
}

/// Relies on serde_json::Value's variants and serde_json::Map's iteration
/// (a map keyed by `String`, each key present once, in key order): hands an
/// object root's entries out one variant arm at a time, and `None` for any
/// non-object root; which they are depends on the value alone.
#[verifier::external_body]
pub(crate) fn json_take_object(v: serde_json::Value) -> (r: Option<Vec<(String, JsonShape)>>)
    ensures
        r is Some <==> object_entries_of(v) is Some,
        r matches Some(entries) ==> object_entries_of(v) == Some(entries_view(entries@))
            && keys_unique(entries_view(entries@)),
{
    match v {
        serde_json::Value::Object(m) => Option::Some(
            m.into_iter().map(
                |kv: (String, serde_json::Value)| match kv.1 {
                    serde_json::Value::Bool(b) => (kv.0, JsonShape::Bool(b)),
                    serde_json::Value::String(s) => (kv.0, JsonShape::Text(s)),
                    other => (kv.0, JsonShape::Opaque(other)),
                },
            ).collect(),
        ),
        _ => Option::None,
    }
}

/// Relies on serde_json::Value's constructors: rebuilds the JSON value a
/// shape stands for, one variant arm at a time; the result depends on the
/// shape alone.
#[verifier::external_body]
pub(crate) fn json_value_of(s: &JsonShape) -> (r: serde_json::Value)
    ensures
        r == value_of_shape(s@),
{
    match s {
        JsonShape::Bool(b) => serde_json::Value::Bool(*b),
        JsonShape::Text(t) => serde_json::Value::String(t.clone()),
        JsonShape::Opaque(v) => v.clone(),
    }
}

/// Relies on serde_json::to_string_pretty and serde_json::Map's
/// FromIterator: serializes an object holding exactly the given entries as
/// pretty-printed JSON text; the result depends on the entries alone.
#[verifier::external_body]
pub(crate) fn json_write_object(entries: Vec<(String, serde_json::Value)>) -> (r: Result<
    String,
    serde_json::Error,
>)
    ensures
        r is Ok <==> written_object_of(write_entries_view(entries@)) is Some,
        r matches Ok(text) ==> written_object_of(write_entries_view(entries@)) == Some(text@),
{
    let m: serde_json::Map<String, serde_json::Value> = entries.into_iter().collect();
    serde_json::to_string_pretty(&serde_json::Value::Object(m))
}

} // verus!

//! The boundary to the `toml` crate.
//!
//! Descriptors are TOML documents. Parsing them is the `toml` crate's work;
//! everything this crate needs of a parsed document is what its top-level
//! string entries and string-array entries hold. Those contents are given
//! names here, and a parsed table is otherwise opaque.

use vstd::prelude::*;

verus! {

#[verifier::external_type_specification]
#[verifier::external_body]
#[verifier::reject_recursive_types(K)]
#[verifier::reject_recursive_types(V)]
pub struct ExTomlMap<K, V>(toml::map::Map<K, V>);

#[verifier::external_type_specification]
#[verifier::external_body]
pub struct ExTomlValue(toml::Value);

/// The top-level entries of `t` whose value is a TOML string, as a map from
/// the key's characters to the string's characters.
pub uninterp spec fn table_strings(t: toml::map::Map<String, toml::Value>) -> Map<
    Seq<char>,
    Seq<char>,
>;

/// The top-level entries of `t` whose value is a TOML array in which every
/// item is a string, as a map from the key's characters to the items'
/// characters in array order.
pub uninterp spec fn table_string_arrays(t: toml::map::Map<String, toml::Value>) -> Map<
    Seq<char>,
    Seq<Seq<char>>,
>;

/// What parsing a text as a TOML document yields, as a function of the text
/// alone: `None` when the text is not well-formed TOML, otherwise the
/// document's string entries and string-array entries.
pub uninterp spec fn toml_doc_rep(text: Seq<char>) -> Option<
    (Map<Seq<char>, Seq<char>>, Map<Seq<char>, Seq<Seq<char>>>),
>;

/// Relies on `toml::from_str::<toml::Table>`: parsing is a pure function of
/// the text, it succeeds exactly on well-formed TOML documents, and the
/// table it returns holds the document's top-level entries.
#[verifier::external_body]
pub(crate) fn parse_table(text: &str) -> (r: Option<toml::map::Map<String, toml::Value>>)
    ensures
        match r {
            Some(t) => toml_doc_rep(text@) == Some((table_strings(t), table_string_arrays(t))),
            None => toml_doc_rep(text@) is None,
        },
{
    toml::from_str::<toml::map::Map<String, toml::Value>>(text).ok()
}

/// Relies on `toml::map::Map::get` and `toml::Value::as_str`: `get` returns
/// the value at a top-level key, and `as_str` returns its characters exactly
/// when that value is a TOML string.
#[verifier::external_body]
pub(crate) fn table_get_string(t: &toml::map::Map<String, toml::Value>, key: &str) -> (r: Option<
    String,
>)
    ensures
        match r {
            Some(s) => table_strings(*t).contains_key(key@) && s@ == table_strings(*t)[key@],
            None => !table_strings(*t).contains_key(key@),
        },
{
    match t.get(key) {
        Some(v) => v.as_str().map(|s| s.to_owned()),
        None => None,
    }
}

/// Relies on `toml::map::Map::get` and the variants of `toml::Value`: `get`
/// returns the value at a top-level key; that value is handed out as plain
/// strings exactly when it is an array in which every item is a string.
#[verifier::external_body]
pub(crate) fn table_get_string_array(
    t: &toml::map::Map<String, toml::Value>,
    key: &str,
) -> (r: Option<Vec<String>>)
    ensures
        match r {
            Some(items) => table_string_arrays(*t).contains_key(key@) && items@.map_values(
                |s: String| s@,
            ) == table_string_arrays(*t)[key@],
            None => !table_string_arrays(*t).contains_key(key@),
        },
{
    let items = match t.get(key) {
        Some(toml::Value::Array(items)) => items,
        _ => return None,
    };
    let mut out: Vec<String> = Vec::new();
    for item in items {
        match item {
            toml::Value::String(s) => out.push(s.clone()),
            _ => return None,
        }
    }
    Some(out)
}

} // verus!

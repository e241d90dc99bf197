//! JSON text read and edited through `serde_json`: what a JSON text holds at
//! a JSON pointer, and the text with one member set or removed. Each operation parses
//! the text and, where it edits, writes the value back in `serde_json`'s
//! compact form.

use vstd::prelude::*;

verus! {

/// What a JSON text holds at a JSON pointer: nothing (the text is not JSON,
/// or nothing is there), or a value of one of the JSON kinds.
#[derive(Clone, Copy, Debug, PartialEq, Eq, Structural)]
pub enum JsonKind {
    Absent,
    Null,
    Bool,
    Number,
    String,
    Array,
    Object,
}

/// What `serde_json` finds at pointer `path` of the JSON text `text`.
pub uninterp spec fn json_kind(text: Seq<char>, path: Seq<char>) -> JsonKind;

/// The string `serde_json` finds at pointer `path` of the JSON text `text`.
pub uninterp spec fn json_str(text: Seq<char>, path: Seq<char>) -> Option<Seq<char>>;

/// The integer `serde_json` finds at pointer `path` of the JSON text
/// `text`, where it is one that fits an `i64`.
pub uninterp spec fn json_i64(text: Seq<char>, path: Seq<char>) -> Option<i64>;

/// The JSON string literal `serde_json` writes for a text.
pub uninterp spec fn json_quoted(s: Seq<char>) -> Seq<char>;

/// The JSON text `text` with member `key` of the object at pointer `parent`
/// set to the JSON value `value`, written back by `serde_json`.
pub uninterp spec fn json_set(text: Seq<char>, parent: Seq<char>, key: Seq<char>, value: Seq<char>) -> Seq<char>;

/// The JSON text `text` with member `key` of the object at pointer `parent`
/// made an empty object where it is absent, written back by `serde_json`.
pub uninterp spec fn json_default_object(text: Seq<char>, parent: Seq<char>, key: Seq<char>) -> Seq<char>;

/// The JSON text `text` written back by `serde_json`.
pub uninterp spec fn json_canonical(text: Seq<char>) -> Seq<char>;

/// The JSON text `text` with member `key` removed from the object at
/// pointer `parent`, written back by `serde_json`.
pub uninterp spec fn json_removed(text: Seq<char>, parent: Seq<char>, key: Seq<char>) -> Seq<char>;

/// The length of the array `serde_json` finds at pointer `path` of the JSON
/// text `text`, where an array is there.
pub uninterp spec fn json_array_len(text: Seq<char>, path: Seq<char>) -> Option<usize>;

/// `serde_json::from_str` and `Value::pointer`: the kind of value at
/// `path`; `Absent` where the text is not JSON or nothing is there.
#[verifier::external_body]
pub(crate) fn json_kind_at(text: &str, path: &str) -> (r: JsonKind)
    ensures
        r == json_kind(text@, path@),
{
    match serde_json::from_str::<serde_json::Value>(text).ok().as_ref().and_then(|v| v.pointer(path)) {
        None => JsonKind::Absent,
        Some(serde_json::Value::Null) => JsonKind::Null,
        Some(serde_json::Value::Bool(_)) => JsonKind::Bool,
        Some(serde_json::Value::Number(_)) => JsonKind::Number,
        Some(serde_json::Value::String(_)) => JsonKind::String,
        Some(serde_json::Value::Array(_)) => JsonKind::Array,
        Some(serde_json::Value::Object(_)) => JsonKind::Object,
    }
}

/// `serde_json::from_str`, `Value::pointer` and `Value::as_str`: the string
/// at `path`, if a string is there.
#[verifier::external_body]
pub(crate) fn json_str_at(text: &str, path: &str) -> (r: Option<String>)
    ensures
        match r {
            Some(s) => json_str(text@, path@) == Some(s@),
            None => json_str(text@, path@) is None,
        },
{
    let value = serde_json::from_str::<serde_json::Value>(text).ok()?;
    value.pointer(path).and_then(serde_json::Value::as_str).map(str::to_string)
}

/// `serde_json::from_str`, `Value::pointer` and `Value::as_i64`: the
/// integer at `path`, if one that fits an `i64` is there.
#[verifier::external_body]
pub(crate) fn json_i64_at(text: &str, path: &str) -> (r: Option<i64>)
    ensures
        r == json_i64(text@, path@),
{
    let value = serde_json::from_str::<serde_json::Value>(text).ok()?;
    value.pointer(path).and_then(serde_json::Value::as_i64)
}

/// `serde_json::to_string` of a text: its JSON string literal.
#[verifier::external_body]
pub(crate) fn json_quote(s: &str) -> (r: String)
    ensures
        r@ == json_quoted(s@),
{
    serde_json::to_string(s).unwrap_or_default()
}

/// `serde_json::from_str`, `Value::pointer_mut`, `Map::insert` and
/// `serde_json::to_string`: the text with the member set. Nothing is said
/// of texts, parents or values that are not as expected.
#[verifier::external_body]
pub(crate) fn json_set_at(text: &str, parent: &str, key: &str, value: &str) -> (r: String)
    ensures
        r@ == json_set(text@, parent@, key@, value@),
{
    let (Ok(mut root), Ok(v)) = (serde_json::from_str::<serde_json::Value>(text), serde_json::from_str(value)) else {
        return text.to_string();
    };
    if let Some(object) = root.pointer_mut(parent).and_then(serde_json::Value::as_object_mut) {
        object.insert(key.to_string(), v);
    }
    serde_json::to_string(&root).unwrap_or_else(|_| text.to_string())
}

/// `serde_json::from_str`, `Value::pointer_mut`, `Map::entry` with
/// `or_insert` of an empty object, and `serde_json::to_string`.
#[verifier::external_body]
pub(crate) fn json_default_object_at(text: &str, parent: &str, key: &str) -> (r: String)
    ensures
        r@ == json_default_object(text@, parent@, key@),
{
    let Ok(mut root) = serde_json::from_str::<serde_json::Value>(text) else {
        return text.to_string();
    };
    if let Some(object) = root.pointer_mut(parent).and_then(serde_json::Value::as_object_mut) {
        object.entry(key.to_string()).or_insert_with(|| serde_json::Value::Object(serde_json::Map::new()));
    }
    serde_json::to_string(&root).unwrap_or_else(|_| text.to_string())
}

/// `serde_json::from_str` and `serde_json::to_string`: the text as
/// `serde_json` writes it.
#[verifier::external_body]
pub(crate) fn json_canonical_text(text: &str) -> (r: String)
    ensures
        r@ == json_canonical(text@),
{
    match serde_json::from_str::<serde_json::Value>(text) {
        Ok(v) => serde_json::to_string(&v).unwrap_or_else(|_| text.to_string()),
        Err(_) => text.to_string(),
    }
}

/// `serde_json::from_str`, `Value::pointer_mut`, `Map::remove` and
/// `serde_json::to_string`: the text with the member removed.
#[verifier::external_body]
pub(crate) fn json_remove_at(text: &str, parent: &str, key: &str) -> (r: String)
    ensures
        r@ == json_removed(text@, parent@, key@),
{
    let Ok(mut root) = serde_json::from_str::<serde_json::Value>(text) else {
        return text.to_string();
    };
    if let Some(object) = root.pointer_mut(parent).and_then(serde_json::Value::as_object_mut) {
        object.remove(key);
    }
    serde_json::to_string(&root).unwrap_or_else(|_| text.to_string())
}

/// `serde_json::from_str`, `Value::pointer` and `Value::as_array`: the
/// number of elements of the array at `path`, if an array is there.
#[verifier::external_body]
pub(crate) fn json_array_len_at(text: &str, path: &str) -> (r: Option<usize>)
    ensures
        r == json_array_len(text@, path@),
{
    let value = serde_json::from_str::<serde_json::Value>(text).ok()?;
    value.pointer(path).and_then(serde_json::Value::as_array).map(Vec::len)
}

} // verus!

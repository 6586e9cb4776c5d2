//! Reading and rewriting open JSON documents.
//!
//! Legacy metadata files have no fixed schema: the migration engine
//! probes a handful of top-level string fields and writes some of them
//! back. What a probe returns is a pure function of the document text,
//! so it carries a name (`json_parses`, `json_doc_is_object`,
//! `json_field`) that the migration contracts build on.

use vstd::prelude::*;

verus! {

/// What a top-level key of a parsed document holds: nothing, a
/// non-string value, or a string.
#[derive(Debug)]
pub enum FieldProbe {
    Missing,
    NonText,
    Text(String),
}

/// The spec-level reading of a probed field.
pub enum FieldView {
    Missing,
    NonText,
    Text(Seq<char>),
}

impl View for FieldProbe {
    type V = FieldView;

    open spec fn view(&self) -> FieldView {
        match self {
            FieldProbe::Missing => FieldView::Missing,
            FieldProbe::NonText => FieldView::NonText,
            FieldProbe::Text(s) => FieldView::Text(s@),
        }
    }
}

/// The string content of a field, if it is one.
pub open spec fn field_text(f: FieldView) -> Option<Seq<char>> {
    match f {
        FieldView::Text(s) => Some(s),
        _ => None,
    }
}

/// Whether `serde_json` parses the text at all; a function of the text
/// alone.
pub uninterp spec fn json_parses(text: Seq<char>) -> bool;

/// Whether the parsed document is a JSON object; meaningful only when
/// `json_parses` holds.
pub uninterp spec fn json_doc_is_object(text: Seq<char>) -> bool;

/// What the given top-level key of the parsed document holds; meaningful
/// only when `json_parses` holds. A non-object document has every field
/// missing.
pub uninterp spec fn json_field(text: Seq<char>, key: Seq<char>) -> FieldView;

/// Relies on `serde_json::from_str` and `Value::is_object`: whether the
/// text parses, and whether it is an object; both are functions of the
/// text alone. The error text is serde's own message.
#[verifier::external_body]
pub fn json_doc_probe(text: &str) -> (r: Result<bool, String>)
    ensures
        r is Ok == json_parses(text@),
        r matches Ok(b) ==> b == json_doc_is_object(text@),
{
    match serde_json::from_str::<serde_json::Value>(text) {
        Ok(v) => Ok(v.is_object()),
        Err(e) => Err(e.to_string()),
    }
}

/// Relies on `serde_json::from_str`, `Value::get` and `Value::as_str`:
/// what the key holds is a function of the text and the key alone.
#[verifier::external_body]
pub fn json_field_probe(text: &str, key: &str) -> (r: FieldProbe)
    requires
        json_parses(text@),
    ensures
        r@ == json_field(text@, key@),
{
    let v = match serde_json::from_str::<serde_json::Value>(text) {
        Ok(v) => v,
        Err(_) => return FieldProbe::Missing,
    };
    match v.get(key) {
        None => FieldProbe::Missing,
        Some(x) => match x.as_str() {
            Some(s) => FieldProbe::Text(s.to_string()),
            None => FieldProbe::NonText,
        },
    }
}

/// Relies on `serde_json::from_str`, `Map::insert` and
/// `to_string_pretty`: overwriting a key of an object and serializing
/// again yields a document in which that key holds the new string and
/// every other probed key reads as before. Fails exactly on text that
/// does not parse to an object.
#[verifier::external_body]
pub fn json_set_string_field(text: &str, key: &str, value: &str) -> (r: Result<String, String>)
    ensures
        r is Ok == (json_parses(text@) && json_doc_is_object(text@)),
        r matches Ok(t) ==> json_parses(t@) && json_doc_is_object(t@) && json_field(t@, key@)
            == FieldView::Text(value@) && (forall|other: Seq<char>|
            other != key@ ==> json_field(t@, other) == json_field(text@, other)),
{
    let mut v = match serde_json::from_str::<serde_json::Value>(text) {
        Ok(v) => v,
        Err(e) => return Err(e.to_string()),
    };
    match v.as_object_mut() {
        None => return Err("not a JSON object".to_string()),
        Some(obj) => {
            obj.insert(key.to_string(), serde_json::Value::String(value.to_string()));
        },
    }
    serde_json::to_string_pretty(&v).map_err(|e| e.to_string())
}

} // verus!

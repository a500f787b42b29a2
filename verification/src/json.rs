use vstd::prelude::*;

verus! {

/// Declares serde_json's document type — the self-describing JSON value
/// the library uses wherever a caller has no fixed schema. The library
/// only carries such values through; it never looks inside one.
#[verifier::external_type_specification]
#[verifier::external_body]
pub struct ExValue(serde_json::Value);

/// Declares serde_json's error type, so that a decode failure can be
/// carried through the error taxonomy unchanged.
#[verifier::external_type_specification]
#[verifier::external_body]
pub struct ExSerdeJsonError(serde_json::Error);

/// Whether serde_json accepts `s` as the text of a JSON document.
pub uninterp spec fn json_valid(s: Seq<char>) -> bool;

/// The document serde_json reads from `s`, when `json_valid(s)` holds.
pub uninterp spec fn json_doc_of(s: Seq<char>) -> serde_json::Value;

/// The text serde_json writes for the document `v`.
pub uninterp spec fn json_text_of(v: serde_json::Value) -> Seq<char>;

/// The one-field document mapping the name `key` to the string `value`.
pub uninterp spec fn string_object_of(key: Seq<char>, value: Seq<char>) -> serde_json::Value;

/// Relies on `serde_json::from_str::<Value>`: it succeeds on exactly the
/// texts serde_json accepts as JSON, and what it reads depends on the
/// text alone.
#[verifier::external_body]
pub(crate) fn parse_json(s: &str) -> (r: Result<serde_json::Value, serde_json::Error>)
    ensures
        r is Ok <==> json_valid(s@),
        r matches Ok(v) ==> v == json_doc_of(s@),
{
    serde_json::from_str(s)
}

/// Relies on `serde_json::to_string::<Value>`: writing a document into
/// memory cannot fail (the writer is infallible and a document holds
/// only finite numbers and text keys); the text it writes depends on the
/// document alone; and when serde_json accepts that text back it reads
/// the same document from it — exact for numbers too, since the crate
/// is built with its precise float parsing turned on.
#[verifier::external_body]
pub(crate) fn encode_json(v: &serde_json::Value) -> (r: Result<String, serde_json::Error>)
    ensures
        r is Ok,
        r matches Ok(s) ==> s@ == json_text_of(*v) && (json_valid(s@) ==> json_doc_of(s@)
            == *v),
{
    serde_json::to_string(v)
}

/// Relies on `serde_json::Value::Null`: the null document, the one that
/// serde_json reads from the text "null".
#[verifier::external_body]
pub(crate) fn json_null() -> (v: serde_json::Value)
    ensures
        v == json_doc_of("null"@),
{
    serde_json::Value::Null
}

/// Relies on `serde_json::Map::insert` and `Value::Object`: builds the
/// one-field object mapping `key` to the string `value`. The result
/// depends on the two arguments alone.
#[verifier::external_body]
pub(crate) fn string_object(key: &str, value: &str) -> (v: serde_json::Value)
    ensures
        v == string_object_of(key@, value@),
{
    let mut m = serde_json::Map::new();
    m.insert(String::from(key), serde_json::Value::String(String::from(value)));
    serde_json::Value::Object(m)
}

/// Relies on `serde_json::Value::clone`: the clone is the same document.
pub assume_specification[ <serde_json::Value as Clone>::clone ](v: &serde_json::Value) -> (r:
    serde_json::Value)
    ensures
        r == *v,
;

/// Relies on `serde_json::from_value`: re-reads a document as a `T`.
/// Nothing is stated of the outcome: which `T` values a document yields
/// is the deserializer's business, and every caller handles both cases.
#[verifier::external_body]
pub(crate) fn from_value_as<T: serde::de::DeserializeOwned>(v: serde_json::Value) -> (r: Result<
    T,
    serde_json::Error,
>) {
    serde_json::from_value(v)
}

} // verus!

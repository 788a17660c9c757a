//! The JSON codec. Parsing and printing are serde_json's; this module gives
//! the calls their contracts, which are believed and not proved.

use vstd::prelude::*;

verus! {

/// serde_json's `Value`, a parsed JSON document. Nothing of its inside is
/// known here: it is read through `string_member` alone.
#[verifier::external_type_specification]
#[verifier::external_body]
pub struct ExJsonValue(serde_json::Value);

/// The string-valued members of a JSON document: for an object, each key
/// whose value is a JSON string, with that string; for any other document,
/// the empty map.
pub uninterp spec fn json_string_members(doc: serde_json::Value) -> Map<Seq<char>, Seq<char>>;

/// What parsing a byte string as JSON gives: the string-valued members of
/// the document, or the parser's diagnostic text where the bytes are no JSON
/// document.
pub uninterp spec fn json_parse(bytes: Seq<u8>) -> Result<Map<Seq<char>, Seq<char>>, Seq<char>>;

/// The compact JSON text of the object with one member, `key`, whose value
/// is the string `value`.
pub uninterp spec fn json_object_text(key: Seq<char>, value: Seq<char>) -> Seq<char>;

/// `serde_json::from_slice` at type `Value`. The contract claims that the
/// outcome is a function of the bytes: on success the document's string
/// members are those of `json_parse`, on failure the error's text is.
#[verifier::external_body]
pub(crate) fn parse_document(bytes: &[u8]) -> (res: Result<serde_json::Value, String>)
    ensures
        match res {
            Ok(doc) => json_parse(bytes@) == Ok::<Map<Seq<char>, Seq<char>>, Seq<char>>(
                json_string_members(doc),
            ),
            Err(text) => json_parse(bytes@) == Err::<Map<Seq<char>, Seq<char>>, Seq<char>>(text@),
        },
{
    serde_json::from_slice::<serde_json::Value>(bytes).map_err(|e| e.to_string())
}

/// `Value::get` with a string key, followed by `Value::as_str`. The contract
/// claims that a string comes back exactly for a key among the document's
/// string members, and that it is the member's value.
#[verifier::external_body]
pub(crate) fn string_member(doc: &serde_json::Value, key: &str) -> (res: Option<String>)
    ensures
        match res {
            Some(text) => json_string_members(*doc).contains_key(key@)
                && json_string_members(*doc)[key@] == text@,
            None => !json_string_members(*doc).contains_key(key@),
        },
{
    doc.get(key).and_then(|member| member.as_str()).map(|text| text.to_string())
}

/// `Value::to_string` on an object built with `Map::insert`. The contract
/// claims that the text is a function of the key and the value.
#[verifier::external_body]
pub(crate) fn object_text(key: &str, value: &str) -> (res: String)
    ensures
        res@ == json_object_text(key@, value@),
{
    let mut members = serde_json::Map::new();
    members.insert(key.to_string(), serde_json::Value::String(value.to_string()));
    serde_json::Value::Object(members).to_string()
}

} // verus!

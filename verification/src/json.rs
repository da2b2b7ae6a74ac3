//! JSON documents, read and built through `serde_json`, and the textual
//! forms of identifiers, through `uuid` and `ulid`. Nothing in this file is
//! proved: each contract says what the outside function is relied on to do.

use vstd::prelude::*;

verus! {

/// `serde_json::Value`, a JSON document. What it holds is `json_of`.
#[verifier::external_type_specification]
#[verifier::external_body]
pub struct ExJsonValue(serde_json::Value);

/// `serde_json::Error`, why a text is no JSON document.
#[verifier::external_type_specification]
#[verifier::external_body]
pub struct ExJsonError(serde_json::Error);

/// What a JSON document holds, as far as the protocol reads it: strings,
/// numbers that are non-negative integers below 2^64, and objects. Null,
/// booleans, arrays and all other numbers are `Other`.
pub enum Json {
    Text { text: Seq<char> },
    Unsigned { value: u64 },
    Object { members: Map<Seq<char>, Json> },
    Other,
}

/// What a `serde_json::Value` holds.
pub uninterp spec fn json_of(value: serde_json::Value) -> Json;

/// What `serde_json::from_str` reads from a text: the document, or nothing
/// where the text is not one JSON document.
pub uninterp spec fn json_parsed(text: Seq<char>) -> Option<Json>;

/// What `uuid::Uuid::parse_str` reads from a text, as a 128-bit value.
pub uninterp spec fn uuid_parsed(text: Seq<char>) -> Option<u128>;

/// The hyphenated lower-case text that `uuid` writes for a 128-bit value.
pub uninterp spec fn uuid_rendered(value: u128) -> Seq<char>;

/// What `ulid::Ulid::from_string` reads from a text, as a 128-bit value.
pub uninterp spec fn ulid_parsed(text: Seq<char>) -> Option<u128>;

/// The 26 characters that `ulid` writes for a 128-bit value.
pub uninterp spec fn ulid_rendered(value: u128) -> Seq<char>;

/// A string or a number.
pub open spec fn is_leaf(document: Json) -> bool {
    document is Text || document is Unsigned
}

/// An object whose members are strings and numbers.
pub open spec fn is_record(document: Json) -> bool {
    document is Object && forall|key: Seq<char>| #[trigger]
        document->members.contains_key(key) ==> is_leaf(document->members[key])
}

/// An object whose members are strings, numbers and records.
pub open spec fn is_nested_record(document: Json) -> bool {
    document is Object && forall|key: Seq<char>| #[trigger]
        document->members.contains_key(key) ==> is_leaf(document->members[key]) || is_record(
            document->members[key],
        )
}

/// An object whose members are strings, numbers, records and nested records:
/// the shape of every frame of the protocol.
pub open spec fn is_frame_shaped(document: Json) -> bool {
    document is Object && forall|key: Seq<char>| #[trigger]
        document->members.contains_key(key) ==> is_leaf(document->members[key])
            || is_nested_record(document->members[key])
}

/// Calls `serde_json::from_str` for a `serde_json::Value`. The outcome is a
/// function of the text alone: the document named by `json_parsed`, or an
/// error where there is none.
#[verifier::external_body]
pub(crate) fn parse(text: &str) -> (outcome: Result<serde_json::Value, serde_json::Error>)
    ensures
        match outcome {
            Ok(value) => json_parsed(text@) == Some(json_of(value)),
            Err(_) => json_parsed(text@).is_none(),
        },
{
    serde_json::from_str::<serde_json::Value>(text)
}

/// Calls `to_string` on a `serde_json::Value`, which writes it as compact
/// JSON. Claimed for documents of the shape of a frame (three levels of
/// objects over strings and unsigned integers): reading the text back gives
/// the same document.
#[verifier::external_body]
pub(crate) fn render(value: &serde_json::Value) -> (text: String)
    requires
        is_frame_shaped(json_of(*value)),
    ensures
        json_parsed(text@) == Some(json_of(*value)),
{
    value.to_string()
}

/// Calls `serde_json::Value::get` with a string key: the member of that name
/// where the document is an object that has one, nothing otherwise.
#[verifier::external_body]
pub(crate) fn member<'a>(value: &'a serde_json::Value, key: &str) -> (found: Option<
    &'a serde_json::Value,
>)
    ensures
        match found {
            Some(inner) => json_of(*value) is Object && json_of(*value)->members.contains_key(key@)
                && json_of(*inner) == json_of(*value)->members[key@],
            None => !(json_of(*value) is Object && json_of(*value)->members.contains_key(key@)),
        },
{
    value.get(key)
}

/// Calls `serde_json::Value::as_str`: the text where the document is a
/// string, nothing otherwise.
#[verifier::external_body]
pub(crate) fn as_text(value: &serde_json::Value) -> (found: Option<String>)
    ensures
        match found {
            Some(text) => json_of(*value) == (Json::Text { text: text@ }),
            None => !(json_of(*value) is Text),
        },
{
    value.as_str().map(|text| text.to_owned())
}

/// Calls `serde_json::Value::as_u64`: the number where the document is a
/// non-negative integer below 2^64, nothing otherwise.
#[verifier::external_body]
pub(crate) fn as_unsigned(value: &serde_json::Value) -> (found: Option<u64>)
    ensures
        match found {
            Some(number) => json_of(*value) == (Json::Unsigned { value: number }),
            None => !(json_of(*value) is Unsigned),
        },
{
    value.as_u64()
}

/// Builds `serde_json::Value::String`.
#[verifier::external_body]
pub(crate) fn text_value(text: &str) -> (value: serde_json::Value)
    ensures
        json_of(value) == (Json::Text { text: text@ }),
{
    serde_json::Value::String(text.to_owned())
}

/// Calls `serde_json::Value::from` on a `u64`.
#[verifier::external_body]
pub(crate) fn unsigned_value(number: u64) -> (value: serde_json::Value)
    ensures
        json_of(value) == (Json::Unsigned { value: number }),
{
    serde_json::Value::from(number)
}

/// Builds `serde_json::Value::Object` over `serde_json::Map::new`: an object
/// without members.
#[verifier::external_body]
pub(crate) fn empty_object() -> (value: serde_json::Value)
    ensures
        json_of(value) == (Json::Object { members: Map::empty() }),
{
    serde_json::Value::Object(serde_json::Map::new())
}

/// Assigns through the string index of `serde_json::Value`: on an object,
/// the member of that name is set, and added where there was none.
#[verifier::external_body]
pub(crate) fn with_member(object: serde_json::Value, key: &str, inner: serde_json::Value) -> (extended:
    serde_json::Value)
    requires
        json_of(object) is Object,
    ensures
        json_of(extended) == (Json::Object {
            members: json_of(object)->members.insert(key@, json_of(inner)),
        }),
{
    let mut extended = object;
    extended[key] = inner;
    extended
}

/// Writes a 128-bit value as `uuid` does in hyphenated form. `parse_str`
/// reads that text back to the same value.
#[verifier::external_body]
pub(crate) fn uuid_text(value: u128) -> (text: String)
    ensures
        text@ == uuid_rendered(value),
        uuid_parsed(text@) == Some(value),
{
    uuid::Uuid::from_u128(value).hyphenated().to_string()
}

/// Calls `uuid::Uuid::parse_str` and hands back the 128-bit value.
#[verifier::external_body]
pub(crate) fn parse_uuid(text: &str) -> (found: Option<u128>)
    ensures
        found == uuid_parsed(text@),
{
    uuid::Uuid::parse_str(text).ok().map(|id| id.as_u128())
}

/// Calls `ulid::Ulid::to_string`. `from_string` reads that text back to the
/// same value.
#[verifier::external_body]
pub(crate) fn ulid_text(value: u128) -> (text: String)
    ensures
        text@ == ulid_rendered(value),
        ulid_parsed(text@) == Some(value),
{
    ulid::Ulid(value).to_string()
}

/// Calls `ulid::Ulid::from_string` and hands back the 128-bit value.
#[verifier::external_body]
pub(crate) fn parse_ulid(text: &str) -> (found: Option<u128>)
    ensures
        found == ulid_parsed(text@),
{
    ulid::Ulid::from_string(text).ok().map(|id| id.0)
}

} // verus!

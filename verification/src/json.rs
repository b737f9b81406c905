//! JSON documents: what a `serde_json::Value` holds, and how it is read from
//! and written to bytes.

use crate::table::{collected, distinct_keys, StringTable};
use serde_json::Value;
use vstd::prelude::*;

verus! {

/// What a JSON document says.
#[verifier::ext_equal]
pub enum Json {
    Null,
    Bool(bool),
    /// A number without a fraction or an exponent.
    Integer(int),
    /// Any other number, by the bits of the double that holds it.
    Float(u64),
    Text(Seq<char>),
    Array(Seq<Json>),
    Object(Map<Seq<char>, Json>),
}

/// Whether bytes are white space, which may stand after a document.
pub open spec fn is_blank(bytes: Seq<u8>) -> bool {
    forall|i: int|
        0 <= i < bytes.len() ==> #[trigger] bytes[i] == 32 || bytes[i] == 10 || bytes[i] == 9
            || bytes[i] == 13
}

/// What comes of reading bytes as JSON: a document, or the text of the error.
#[verifier::ext_equal]
pub enum Reading {
    Document(Json),
    Error(Seq<char>),
}

/// How many levels of arrays and objects a document may have to be read back.
pub const MAX_DEPTH: u64 = 127;

/// Whether a document has at most `depth` levels of arrays and objects, and no
/// number but integers.
pub open spec fn plain_within(document: Json, depth: nat) -> bool
    decreases depth,
{
    match document {
        Json::Float(_) => false,
        Json::Array(items) => depth > 0 && forall|i: int|
            0 <= i < items.len() ==> plain_within(#[trigger] items[i], (depth - 1) as nat),
        Json::Object(fields) => depth > 0 && forall|key: Seq<char>|
            fields.contains_key(key) ==> plain_within(#[trigger] fields[key], (depth - 1) as nat),
        _ => true,
    }
}

/// `serde_json::Value`, of which [`json`] tells the document.
#[verifier::external_type_specification]
#[verifier::external_body]
pub struct ExValue(serde_json::Value);

/// The document that a `serde_json::Value` holds.
pub uninterp spec fn json(value: Value) -> Json;

/// The bytes that `serde_json::to_vec` writes for a document.
pub uninterp spec fn json_text(document: Json) -> Seq<u8>;

/// What `serde_json::from_slice` reads from bytes.
pub uninterp spec fn json_reading(bytes: Seq<u8>) -> Reading;

/// The documents of the values of a map.
pub open spec fn documents(values: Map<Seq<char>, Value>) -> Map<Seq<char>, Json> {
    values.map_values(|value: Value| json(value))
}

/// `<serde_json::Value as Clone>::clone` gives a value that holds the same
/// document.
pub assume_specification[ <serde_json::Value as Clone>::clone ](value: &serde_json::Value) -> (r: serde_json::Value)
    ensures
        json(r) == json(*value),
;

/// `serde_json::to_vec` on a value: it never fails, and what it writes depends
/// on the document alone, since a value's objects are kept in key order and its
/// numbers as integers and doubles: the features `preserve_order` and
/// `arbitrary_precision` of `serde_json` have to be off. The bytes of a document of integers, within the reader's depth limit, are read
/// back as that document. An object ends with its last byte: `serde_json::from_slice`
/// refuses it with anything but white space after it.
#[verifier::external_body]
pub(crate) fn write_value(value: &Value) -> (r: Result<Vec<u8>, String>)
    ensures
        r is Ok,
        r->Ok_0@ == json_text(json(*value)),
        plain_within(json(*value), MAX_DEPTH as nat) ==> json_reading(r->Ok_0@) == Reading::Document(
            json(*value),
        ),
        json(*value) is Object ==> forall|rest: Seq<u8>|
            !is_blank(rest) ==> #[trigger] json_reading(r->Ok_0@ + rest) is Error,
{
    serde_json::to_vec(value).map_err(|error| error.to_string())
}

/// `serde_json::from_slice` into a value: whether it succeeds, the document,
/// and the text of the error depend on the bytes alone. There is no document in
/// white space.
#[verifier::external_body]
pub(crate) fn read_value(bytes: &[u8]) -> (r: Result<Value, String>)
    ensures
        match r {
            Ok(value) => json_reading(bytes@) == Reading::Document(json(value)),
            Err(text) => json_reading(bytes@) == Reading::Error(text@),
        },
        is_blank(bytes@) ==> r is Err,
{
    serde_json::from_slice::<Value>(bytes).map_err(|error| error.to_string())
}

/// `serde_json::Value::get` with a text index: the field of an object, and
/// nothing where the value is no object or lacks the field.
#[verifier::external_body]
pub(crate) fn field<'a>(value: &'a Value, key: &str) -> (r: Option<&'a Value>)
    ensures
        match json(*value) {
            Json::Object(fields) => match r {
                Some(found) => fields.contains_key(key@) && json(*found) == fields[key@],
                None => !fields.contains_key(key@),
            },
            _ => r is None,
        },
{
    value.get(key)
}

/// `serde_json::Value::as_str`: the text of a string, and nothing for any other
/// value.
#[verifier::external_body]
pub(crate) fn text_of(value: &Value) -> (r: Option<&str>)
    ensures
        match json(*value) {
            Json::Text(text) => r is Some && r->0@ == text,
            _ => r is None,
        },
{
    value.as_str()
}

/// The constructor `serde_json::Value::String`.
#[verifier::external_body]
pub(crate) fn text_value(text: String) -> (r: Value)
    ensures
        json(r) == Json::Text(text@),
{
    Value::String(text)
}

/// `<serde_json::Value as FromIterator>::from_iter` on pairs with distinct keys: an
/// object with these fields.
#[verifier::external_body]
pub(crate) fn object_value(entries: Vec<(String, Value)>) -> (r: Value)
    requires
        distinct_keys(entries@),
    ensures
        json(r) == Json::Object(documents(collected(entries@))),
{
    <Value as FromIterator<(String, Value)>>::from_iter(entries)
}

/// The variant `serde_json::Value::Object` and `serde_json::Map::into_iter`: the
/// fields of an object, each key once, and nothing for any other value.
#[verifier::external_body]
pub(crate) fn object_entries(value: Value) -> (r: Option<Vec<(String, Value)>>)
    ensures
        match json(value) {
            Json::Object(fields) => r is Some && distinct_keys(r->0@) && documents(collected(r->0@))
                == fields,
            _ => r is None,
        },
{
    match value {
        Value::Object(fields) => Some(fields.into_iter().collect()),
        _ => None,
    }
}

/// The fields of an object as a table, and nothing for any other value.
pub fn object_fields(value: Value) -> (r: Option<StringTable<Value>>)
    ensures
        match json(value) {
            Json::Object(fields) => r is Some && documents(r->0@) == fields,
            _ => r is None,
        },
{
    let entries = match object_entries(value) {
        Some(entries) => entries,
        None => {
            return None;
        },
    };
    let mut table: StringTable<Value> = StringTable::new();
    let ghost listed = entries@;
    assert(listed.take(0) =~= Seq::empty());
    for (key, value) in it: entries.into_iter()
        invariant
            it.seq() == listed,
            documents(table@) == documents(collected(listed.take(it.index() as int))),
    {
        let ghost i = it.index() as int;
        let ghost known = table@;
        table.insert(key, value);
        proof {
            assert(listed.take(i + 1).drop_last() =~= listed.take(i));
            document_of_insert(known, key@, value);
            document_of_insert(collected(listed.take(i)), key@, value);
        }
    }
    assert(listed.take(listed.len() as int) =~= listed);
    Some(table)
}

/// The documents after a value is put in.
pub proof fn document_of_insert(values: Map<Seq<char>, Value>, key: Seq<char>, value: Value)
    ensures
        documents(values.insert(key, value)) == documents(values).insert(key, json(value)),
{
    assert(documents(values.insert(key, value)) =~= documents(values).insert(key, json(value)));
}

/// Bytes are blank exactly if each is a space, a line feed, a tab or a carriage return.
pub proof fn blank_is_white_space(bytes: Seq<u8>)
    ensures
        is_blank(bytes) <==> forall|i: int|
            0 <= i < bytes.len() ==> #[trigger] bytes[i] as char == ' ' || bytes[i] as char == '\n'
                || bytes[i] as char == '\t' || bytes[i] as char == '\r',
{
}

/// The documents of a map stand under its keys.
pub proof fn documents_keep_keys(values: Map<Seq<char>, Value>, key: Seq<char>)
    ensures
        documents(values).contains_key(key) == values.contains_key(key),
        values.contains_key(key) ==> documents(values)[key] == json(values[key]),
{
}

/// A document that is no container and no fraction is plain. One level is an array or an
/// object, which is plain exactly if all that it holds is, one level less deep.
pub proof fn plain_documents(document: Json, depth: nat)
    ensures
        document is Null || document is Bool || document is Integer || document is Text
            ==> plain_within(document, depth),
        document is Float ==> !plain_within(document, depth),
        document is Array || document is Object ==> !plain_within(document, 0),
        document matches Json::Array(items) ==> plain_within(document, depth + 1) == forall|i: int|
            0 <= i < items.len() ==> plain_within(#[trigger] items[i], depth),
        document matches Json::Object(fields) ==> plain_within(document, depth + 1) == forall|
            key: Seq<char>,
        |
            fields.contains_key(key) ==> plain_within(#[trigger] fields[key], depth),
{
}

} // verus!

//! The wire format of Kafka records.
//!
//! A record's kind stands in a header, and its value is an envelope in JSON:
//! - `message`: a request, which may carry the address of its reply
//! - `event`: a notice
//! - `reply` and `reply-error`: the answer to a request
//!
//! The address of a reply travels in the envelope's metadata, under reserved
//! keys.

use crate::envelope::{
    texts, texts_of_insert, texts_of_remove, EnvelopeView, EventEnvelope, MessageEnvelope,
    TransportMetadata,
};
use crate::json::{
    document_of_insert, documents, is_blank, json, json_reading, json_text, object_fields,
    object_value, plain_within, read_value, text_of, text_value, write_value, Json, Reading, MAX_DEPTH,
};
use crate::table::{collected, collected_keys, collected_value, distinct_keys, StringTable};
use serde_json::Value;
use vstd::prelude::*;
use vstd::utf8::{decode_utf8, encode_utf8, encode_utf8_decode_utf8, encode_utf8_valid_utf8, valid_utf8};

verus! {

/// The header that tells a record's kind.
pub const KIND_KEY: &'static str = "nestforge-kind";

/// The kind of a request.
pub const KIND_MESSAGE: &'static str = "message";

/// The kind of a notice.
pub const KIND_EVENT: &'static str = "event";

/// The kind of an answer.
pub const KIND_REPLY: &'static str = "reply";

/// The kind of an answer that tells of a failure.
pub const KIND_REPLY_ERROR: &'static str = "reply-error";

/// The reserved key of the topic on which a reply is expected.
pub const META_REPLY_TOPIC: &'static str = "nestforge.reply_topic";

/// The reserved key of the id that ties a reply to its request.
pub const META_CORRELATION_ID: &'static str = "nestforge.correlation_id";

/// `std::string::FromUtf8Error`, of which nothing is claimed.
#[verifier::external_type_specification]
#[verifier::external_body]
pub struct ExFromUtf8Error(std::string::FromUtf8Error);

/// `String::from_utf8` succeeds exactly on valid UTF-8, and decodes it.
pub assume_specification[ String::from_utf8 ](bytes: Vec<u8>) -> (r: Result<String, std::string::FromUtf8Error>)
    ensures
        r is Ok <==> valid_utf8(bytes@),
        r is Ok ==> r->Ok_0@ == decode_utf8(bytes@),
;

/// The bytes of the values of a map.
pub open spec fn header_bytes(headers: Map<Seq<char>, Vec<u8>>) -> Map<Seq<char>, Seq<u8>> {
    headers.map_values(|bytes: Vec<u8>| bytes@)
}

/// The headers of a record of a kind: the kind alone, in UTF-8.
pub open spec fn headers_of_kind(kind: Seq<char>) -> Map<Seq<char>, Seq<u8>> {
    Map::<Seq<char>, Seq<u8>>::empty().insert(KIND_KEY@, encode_utf8(kind))
}

/// The kind that headers tell, if they tell one in UTF-8.
pub open spec fn kind_in(headers: Map<Seq<char>, Seq<u8>>) -> Option<Seq<char>> {
    if headers.contains_key(KIND_KEY@) && valid_utf8(headers[KIND_KEY@]) {
        Some(decode_utf8(headers[KIND_KEY@]))
    } else {
        None
    }
}

/// The headers of a record of the given kind.
pub fn kind_headers(kind: &str) -> (r: StringTable<Vec<u8>>)
    ensures
        header_bytes(r@) == headers_of_kind(kind@),
        kind_in(header_bytes(r@)) == Some(kind@),
{
    let mut headers: StringTable<Vec<u8>> = StringTable::new();
    let bytes = vstd::slice::slice_to_vec(kind.as_bytes());
    headers.insert(KIND_KEY.to_owned(), bytes);
    proof {
        assert(header_bytes(headers@) =~= headers_of_kind(kind@));
        kind_survives_headers(kind@);
    }
    headers
}

/// The kind that was put into headers is read back from them.
pub proof fn kind_survives_headers(kind: Seq<char>)
    ensures
        kind_in(headers_of_kind(kind)) == Some(kind),
{
    encode_utf8_valid_utf8(kind);
    encode_utf8_decode_utf8(kind);
}

/// The kind that a record's headers tell.
pub fn kind_of(headers: &StringTable<Vec<u8>>) -> (r: Option<String>)
    ensures
        match r {
            Some(kind) => kind_in(header_bytes(headers@)) == Some(kind@),
            None => kind_in(header_bytes(headers@)) is None,
        },
{
    match headers.get(KIND_KEY) {
        Some(bytes) => {
            let copy = vstd::slice::slice_to_vec(bytes.as_slice());
            assert(header_bytes(headers@)[KIND_KEY@] == copy@);
            String::from_utf8(copy).ok()
        },
        None => None,
    }
}

/// Why a record's value could not be written or read.
#[derive(Debug, Clone, PartialEq, Eq)]
pub enum WireError {
    /// The value could not be written; with the cause.
    Serialize(String),
    /// The bytes are no JSON; with the cause.
    Syntax(String),
    /// The document is no envelope; with the cause.
    Shape(String),
}

/// What a [`WireError`] says.
#[verifier::ext_equal]
pub enum WireErrorView {
    Serialize(Seq<char>),
    Syntax(Seq<char>),
    Shape(Seq<char>),
}

impl View for WireError {
    type V = WireErrorView;

    open spec fn view(&self) -> WireErrorView {
        match self {
            WireError::Serialize(cause) => WireErrorView::Serialize(cause@),
            WireError::Syntax(cause) => WireErrorView::Syntax(cause@),
            WireError::Shape(cause) => WireErrorView::Shape(cause@),
        }
    }
}

impl WireError {
    /// The text of the error, without its cause.
    pub open spec fn text(self) -> Seq<char> {
        match self {
            WireError::Serialize(_) => "failed to serialize record payload"@,
            _ => "failed to deserialize record payload"@,
        }
    }

    /// What failed, in words.
    pub fn message(&self) -> (r: String)
        ensures
            r@ == self.text(),
    {
        match self {
            WireError::Serialize(_) => "failed to serialize record payload".to_owned(),
            _ => "failed to deserialize record payload".to_owned(),
        }
    }
}

/// Writes a value as JSON. This never fails.
pub fn encode_json(value: &Value) -> (r: Result<Vec<u8>, WireError>)
    ensures
        r is Ok,
        r->Ok_0@ == json_text(json(*value)),
        plain_within(json(*value), MAX_DEPTH as nat) ==> json_reading(r->Ok_0@)
            == Reading::Document(json(*value)),
        json(*value) is Object ==> forall|rest: Seq<u8>|
            !is_blank(rest) ==> #[trigger] json_reading(r->Ok_0@ + rest) is Error,
{
    match write_value(value) {
        Ok(bytes) => Ok(bytes),
        Err(cause) => Err(WireError::Serialize(cause)),
    }
}

/// Reads a value from JSON.
pub fn decode_json(bytes: &[u8]) -> (r: Result<Value, WireError>)
    ensures
        match json_reading(bytes@) {
            Reading::Document(document) => r is Ok && json(r->Ok_0) == document,
            Reading::Error(cause) => r is Err && r->Err_0@ == WireErrorView::Syntax(cause),
        },
        is_blank(bytes@) ==> r is Err,
{
    match read_value(bytes) {
        Ok(value) => Ok(value),
        Err(cause) => Err(WireError::Syntax(cause)),
    }
}

/// The value of a metadata key, if it has one.
pub fn metadata_get(metadata: &TransportMetadata, key: &str) -> (r: Option<String>)
    ensures
        match r {
            Some(value) => metadata@.contains_key(key@) && value@ == metadata@[key@],
            None => !metadata@.contains_key(key@),
        },
{
    match metadata.values.get(key) {
        Some(value) => Some(value.clone()),
        None => None,
    }
}

/// Metadata without the reserved keys.
pub open spec fn user_entries(metadata: Map<Seq<char>, Seq<char>>) -> Map<Seq<char>, Seq<char>> {
    metadata.remove(META_REPLY_TOPIC@).remove(META_CORRELATION_ID@)
}

/// Metadata that carries the address of a reply.
pub open spec fn reply_entries(
    metadata: Map<Seq<char>, Seq<char>>,
    reply_topic: Seq<char>,
    correlation_id: Seq<char>,
) -> Map<Seq<char>, Seq<char>> {
    metadata.insert(META_REPLY_TOPIC@, reply_topic).insert(META_CORRELATION_ID@, correlation_id)
}

/// The metadata that a handler sees: all but the reserved keys.
pub fn user_metadata(metadata: &TransportMetadata) -> (r: TransportMetadata)
    ensures
        r@ == user_entries(metadata@),
{
    let copy = metadata.clone();
    let mut values = copy.values;
    let ghost whole = values@;
    values.remove(META_REPLY_TOPIC);
    proof {
        texts_of_remove(whole, META_REPLY_TOPIC@);
        texts_of_remove(values@, META_CORRELATION_ID@);
    }
    values.remove(META_CORRELATION_ID);
    TransportMetadata { values }
}

/// The metadata with the address of a reply.
pub fn with_reply_meta(
    envelope_metadata: TransportMetadata,
    reply_topic: &str,
    correlation_id: &str,
) -> (r: TransportMetadata)
    ensures
        r@ == reply_entries(envelope_metadata@, reply_topic@, correlation_id@),
{
    envelope_metadata.insert(META_REPLY_TOPIC, reply_topic).insert(
        META_CORRELATION_ID,
        correlation_id,
    )
}

/// The two reserved keys differ.
pub proof fn reserved_keys_differ()
    ensures
        META_REPLY_TOPIC@ != META_CORRELATION_ID@,
{
    reveal_strlit("nestforge.reply_topic");
    reveal_strlit("nestforge.correlation_id");
    assert(META_REPLY_TOPIC@.len() != META_CORRELATION_ID@.len());
}

/// The address of a reply is read back from metadata that carries it, and no
/// other entry is changed.
pub proof fn reply_address_is_read_back(
    metadata: Map<Seq<char>, Seq<char>>,
    reply_topic: Seq<char>,
    correlation_id: Seq<char>,
)
    ensures
        reply_entries(metadata, reply_topic, correlation_id).contains_key(META_REPLY_TOPIC@),
        reply_entries(metadata, reply_topic, correlation_id)[META_REPLY_TOPIC@] == reply_topic,
        reply_entries(metadata, reply_topic, correlation_id).contains_key(META_CORRELATION_ID@),
        reply_entries(metadata, reply_topic, correlation_id)[META_CORRELATION_ID@]
            == correlation_id,
        forall|key: Seq<char>|
            key != META_REPLY_TOPIC@ && key != META_CORRELATION_ID@ ==> {
                &&& #[trigger] reply_entries(
                    metadata,
                    reply_topic,
                    correlation_id,
                ).contains_key(key) == metadata.contains_key(key)
                &&& reply_entries(metadata, reply_topic, correlation_id)[key] == metadata[key]
            },
{
    reserved_keys_differ();
}

/// A handler sees neither of the reserved keys, every other entry as it was
/// sent, and so the same whether or not a reply is expected.
pub proof fn reserved_keys_are_stripped(
    metadata: Map<Seq<char>, Seq<char>>,
    reply_topic: Seq<char>,
    correlation_id: Seq<char>,
)
    ensures
        !user_entries(metadata).contains_key(META_REPLY_TOPIC@),
        !user_entries(metadata).contains_key(META_CORRELATION_ID@),
        forall|key: Seq<char>|
            key != META_REPLY_TOPIC@ && key != META_CORRELATION_ID@ ==> {
                &&& #[trigger] user_entries(metadata).contains_key(key) == metadata.contains_key(key)
                &&& metadata.contains_key(key) ==> user_entries(metadata)[key] == metadata[key]
            },
        user_entries(reply_entries(metadata, reply_topic, correlation_id)) == user_entries(metadata),
        user_entries(user_entries(metadata)) == user_entries(metadata),
{
    assert(user_entries(reply_entries(metadata, reply_topic, correlation_id)) =~= user_entries(
        metadata,
    ));
    assert(user_entries(user_entries(metadata)) =~= user_entries(metadata));
}

/// The documents of texts.
pub open spec fn text_documents(values: Map<Seq<char>, Seq<char>>) -> Map<Seq<char>, Json> {
    values.map_values(|text: Seq<char>| Json::Text(text))
}

/// The document of metadata.
pub open spec fn metadata_json(metadata: Map<Seq<char>, Seq<char>>) -> Json {
    Json::Object(
        Map::<Seq<char>, Json>::empty().insert("values"@, Json::Object(text_documents(metadata))),
    )
}

/// The document of an envelope.
pub open spec fn envelope_json(envelope: EnvelopeView) -> Json {
    Json::Object(
        Map::<Seq<char>, Json>::empty().insert("pattern"@, Json::Text(envelope.pattern)).insert(
            "payload"@,
            envelope.payload,
        ).insert("metadata"@, metadata_json(envelope.metadata)),
    )
}

/// The texts of an object's fields, where each of them is a text.
pub open spec fn texts_in(fields: Map<Seq<char>, Json>) -> Option<Map<Seq<char>, Seq<char>>> {
    if forall|key: Seq<char>| fields.contains_key(key) ==> #[trigger] fields[key] is Text {
        Some(fields.map_values(|document: Json| document->Text_0))
    } else {
        None
    }
}

/// The metadata that a document holds, if it holds any.
pub open spec fn metadata_in(document: Json) -> Option<Map<Seq<char>, Seq<char>>> {
    match document {
        Json::Object(fields) => if fields.contains_key("values"@) {
            match fields["values"@] {
                Json::Object(values) => texts_in(values),
                _ => None,
            }
        } else {
            None
        },
        _ => None,
    }
}

/// The envelope that a document holds, if it holds one: an object whose fields
/// `pattern`, `payload` and `metadata` are a text, any document and metadata.
/// Other fields do not count.
pub open spec fn envelope_in(document: Json) -> Option<EnvelopeView> {
    match document {
        Json::Object(fields) => if fields.contains_key("pattern"@) && fields["pattern"@] is Text
            && fields.contains_key("payload"@) && fields.contains_key("metadata"@) && metadata_in(
            fields["metadata"@],
        ) is Some {
            Some(
                EnvelopeView {
                    pattern: fields["pattern"@]->Text_0,
                    payload: fields["payload"@],
                    metadata: metadata_in(fields["metadata"@])->0,
                },
            )
        } else {
            None
        },
        _ => None,
    }
}

/// Why a document holds no metadata.
pub open spec fn metadata_fault(document: Json) -> Seq<char> {
    match document {
        Json::Object(fields) => if fields.contains_key("values"@) {
            "invalid type of field `values`"@
        } else {
            "missing field `values`"@
        },
        _ => "invalid type of field `metadata`"@,
    }
}

/// Why a document holds no envelope: the first of the fields `pattern`, `payload` and
/// `metadata` that is missing or not of its type.
pub open spec fn envelope_fault(document: Json) -> Seq<char> {
    match document {
        Json::Object(fields) => if !fields.contains_key("pattern"@) {
            "missing field `pattern`"@
        } else if !(fields["pattern"@] is Text) {
            "invalid type of field `pattern`"@
        } else if !fields.contains_key("payload"@) {
            "missing field `payload`"@
        } else if !fields.contains_key("metadata"@) {
            "missing field `metadata`"@
        } else {
            metadata_fault(fields["metadata"@])
        },
        _ => "invalid type of an envelope"@,
    }
}

/// What comes of reading bytes as an envelope.
#[verifier::ext_equal]
pub enum EnvelopeReading {
    Envelope(EnvelopeView),
    Failure(WireErrorView),
}

/// Reads bytes as an envelope.
pub open spec fn envelope_reading(bytes: Seq<u8>) -> EnvelopeReading {
    match json_reading(bytes) {
        Reading::Document(document) => match envelope_in(document) {
            Some(envelope) => EnvelopeReading::Envelope(envelope),
            None => EnvelopeReading::Failure(WireErrorView::Shape(envelope_fault(document))),
        },
        Reading::Error(cause) => EnvelopeReading::Failure(WireErrorView::Syntax(cause)),
    }
}

/// Whether bytes cannot be read as an envelope with anything but white space after
/// them.
pub open spec fn admits_nothing_after(bytes: Seq<u8>) -> bool {
    forall|rest: Seq<u8>|
        !is_blank(rest) ==> (#[trigger] envelope_reading(bytes + rest) matches EnvelopeReading::Failure(
            WireErrorView::Syntax(_),
        ))
}

/// Whether an envelope is sure to be read back as it was written: its payload
/// has no number but integers, and stays within the reader's depth limit.
pub open spec fn is_portable(envelope: EnvelopeView) -> bool {
    plain_within(envelope.payload, (MAX_DEPTH - 1) as nat)
}

proof fn field_names_differ()
    ensures
        "pattern"@ != "payload"@,
        "pattern"@ != "metadata"@,
        "payload"@ != "metadata"@,
{
    reveal_strlit("pattern");
    reveal_strlit("payload");
    reveal_strlit("metadata");
    assert("pattern"@[1] == 'a' && "pattern"@[2] == 't');
    assert("payload"@[2] == 'y');
    assert("metadata"@.len() == 8);
}

/// The document of an envelope holds that envelope.
pub proof fn envelope_survives_document(envelope: EnvelopeView)
    ensures
        envelope_in(envelope_json(envelope)) == Some(envelope),
{
    field_names_differ();
    let values = text_documents(envelope.metadata);
    assert(values.map_values(|document: Json| document->Text_0) =~= envelope.metadata);
    assert(metadata_in(metadata_json(envelope.metadata)) == Some(envelope.metadata));
}

/// The document of a portable envelope can be read back.
pub proof fn portable_envelope_is_plain(envelope: EnvelopeView)
    requires
        is_portable(envelope),
    ensures
        plain_within(envelope_json(envelope), MAX_DEPTH as nat),
{
    field_names_differ();
    let depth = (MAX_DEPTH - 1) as nat;
    let values = text_documents(envelope.metadata);
    assert forall|key: Seq<char>| values.contains_key(key) implies plain_within(
        #[trigger] values[key],
        (depth - 2) as nat,
    ) by {
        assert(values[key] is Text);
    }
    assert(plain_within(Json::Object(values), (depth - 1) as nat));
    assert(plain_within(metadata_json(envelope.metadata), depth));
    assert(plain_within(Json::Text(envelope.pattern), depth));
}

/// The value of metadata.
fn metadata_value(metadata: &TransportMetadata) -> (r: Value)
    ensures
        json(r) == metadata_json(metadata@),
{
    let entries = metadata.values.entries();
    let mut list: Vec<(String, Value)> = Vec::new();
    let mut i: usize = 0;
    assert(entries@.take(0) =~= Seq::empty());
    assert(documents(collected(list@)) =~= text_documents(texts(collected(entries@.take(0)))));
    while i < entries.len()
        invariant
            i <= entries.len(),
            list.len() == i,
            distinct_keys(entries@),
            forall|j: int| 0 <= j < i ==> #[trigger] list@[j].0@ == entries@[j].0@,
            documents(collected(list@)) == text_documents(
                texts(collected(entries@.take(i as int))),
            ),
        decreases entries.len() - i,
    {
        let ghost written = list@;
        let ghost known = collected(written);
        let value = text_value(entries[i].1.clone());
        list.push((entries[i].0.clone(), value));
        proof {
            let (key, text) = entries@[i as int];
            let taken = collected(entries@.take(i as int));
            assert(entries@.take(i + 1).drop_last() =~= entries@.take(i as int));
            assert(list@.drop_last() =~= written);
            document_of_insert(known, key@, value);
            texts_of_insert(taken, key@, text);
            assert(text_documents(texts(taken).insert(key@, text@)) =~= text_documents(
                texts(taken),
            ).insert(key@, Json::Text(text@)));
        }
        i = i + 1;
    }
    assert(entries@.take(i as int) =~= entries@);
    let values = object_value(list);
    let mut fields: Vec<(String, Value)> = Vec::new();
    fields.push(("values".to_owned(), values));
    proof {
        reveal_with_fuel(collected, 2);
        assert(fields@.drop_last() =~= Seq::empty());
        assert(documents(collected(fields@)) =~= Map::<Seq<char>, Json>::empty().insert(
            "values"@,
            json(values),
        ));
    }
    object_value(fields)
}

/// The value of an envelope.
pub fn envelope_value(pattern: &str, payload: &Value, metadata: &TransportMetadata) -> (r: Value)
    ensures
        json(r) == envelope_json(
            (EnvelopeView { pattern: pattern@, payload: json(*payload), metadata: metadata@ }),
        ),
{
    let pattern_value = text_value(pattern.to_owned());
    let payload_value = payload.clone();
    let metadata_value = metadata_value(metadata);
    proof {
        field_names_differ();
    }
    let mut fields: Vec<(String, Value)> = Vec::new();
    fields.push(("pattern".to_owned(), pattern_value));
    let ghost one = fields@;
    fields.push(("payload".to_owned(), payload_value));
    let ghost two = fields@;
    fields.push(("metadata".to_owned(), metadata_value));
    proof {
        assert(one.drop_last() =~= Seq::empty());
        assert(two.drop_last() =~= one);
        assert(fields@.drop_last() =~= two);
        let none = Map::<Seq<char>, Value>::empty();
        assert(collected(one.drop_last()) =~= none);
        assert(documents(none) =~= Map::<Seq<char>, Json>::empty());
        document_of_insert(none, "pattern"@, pattern_value);
        document_of_insert(collected(one), "payload"@, payload_value);
        document_of_insert(collected(two), "metadata"@, metadata_value);
    }
    object_value(fields)
}

/// Writes an envelope. This never fails.
fn write_envelope(pattern: &str, payload: &Value, metadata: &TransportMetadata) -> (r: Result<
    Vec<u8>,
    WireError,
>)
    ensures
        ({
            let envelope = EnvelopeView {
                pattern: pattern@,
                payload: json(*payload),
                metadata: metadata@,
            };
            &&& r is Ok
            &&& r->Ok_0@ == json_text(envelope_json(envelope))
            &&& is_portable(envelope) ==> envelope_reading(r->Ok_0@) == EnvelopeReading::Envelope(
                envelope,
            )
            &&& admits_nothing_after(r->Ok_0@)
        }),
{
    proof {
        let envelope = EnvelopeView {
            pattern: pattern@,
            payload: json(*payload),
            metadata: metadata@,
        };
        if is_portable(envelope) {
            portable_envelope_is_plain(envelope);
        }
        envelope_survives_document(envelope);
    }
    encode_json(&envelope_value(pattern, payload, metadata))
}

/// Writes an event's envelope. This never fails, and a portable envelope is
/// read back as it was written, but not with anything but white space after it.
pub fn encode_event(envelope: &EventEnvelope) -> (r: Result<Vec<u8>, WireError>)
    ensures
        r is Ok,
        r->Ok_0@ == json_text(envelope_json(envelope@)),
        is_portable(envelope@) ==> envelope_reading(r->Ok_0@) == EnvelopeReading::Envelope(
            envelope@,
        ),
        admits_nothing_after(r->Ok_0@),
{
    write_envelope(envelope.pattern.as_str(), &envelope.payload, &envelope.metadata)
}

/// Writes a message's envelope. This never fails, and a portable envelope is
/// read back as it was written, but not with anything but white space after it.
pub fn encode_message(envelope: &MessageEnvelope) -> (r: Result<Vec<u8>, WireError>)
    ensures
        r is Ok,
        r->Ok_0@ == json_text(envelope_json(envelope@)),
        is_portable(envelope@) ==> envelope_reading(r->Ok_0@) == EnvelopeReading::Envelope(
            envelope@,
        ),
        admits_nothing_after(r->Ok_0@),
{
    write_envelope(envelope.pattern.as_str(), &envelope.payload, &envelope.metadata)
}

/// The envelope of an answer: the request's pattern, the answer, and the
/// request's id; no reply to it is expected.
pub open spec fn reply_view(
    pattern: Seq<char>,
    payload: Json,
    correlation_id: Seq<char>,
) -> EnvelopeView {
    EnvelopeView {
        pattern,
        payload,
        metadata: reply_entries(
            Map::<Seq<char>, Seq<char>>::empty(),
            Seq::<char>::empty(),
            correlation_id,
        ),
    }
}

/// The document that tells of a failure.
pub open spec fn error_json(error: Seq<char>) -> Json {
    Json::Object(Map::<Seq<char>, Json>::empty().insert("message"@, Json::Text(error)))
}

/// Writes the envelope of an answer.
pub fn reply_envelope(pattern: &str, payload: Value, correlation_id: &str) -> (r: Result<
    Vec<u8>,
    WireError,
>)
    ensures
        r is Ok,
        r->Ok_0@ == json_text(
            envelope_json(reply_view(pattern@, json(payload), correlation_id@)),
        ),
        is_portable(reply_view(pattern@, json(payload), correlation_id@)) ==> envelope_reading(
            r->Ok_0@,
        ) == EnvelopeReading::Envelope(reply_view(pattern@, json(payload), correlation_id@)),
        admits_nothing_after(r->Ok_0@),
{
    proof {
        reveal_strlit("");
        assert(""@ =~= Seq::<char>::empty());
    }
    let metadata = with_reply_meta(TransportMetadata::default(), "", correlation_id);
    let envelope = MessageEnvelope { pattern: pattern.to_owned(), payload, metadata };
    encode_message(&envelope)
}

/// Writes the envelope of an answer that tells of a failure. It is always read
/// back as it was written.
pub fn error_reply_envelope(pattern: &str, error: &str, correlation_id: &str) -> (r: Result<
    Vec<u8>,
    WireError,
>)
    ensures
        r is Ok,
        r->Ok_0@ == json_text(
            envelope_json(reply_view(pattern@, error_json(error@), correlation_id@)),
        ),
        envelope_reading(r->Ok_0@) == EnvelopeReading::Envelope(
            reply_view(pattern@, error_json(error@), correlation_id@),
        ),
        admits_nothing_after(r->Ok_0@),
{
    let mut fields: Vec<(String, Value)> = Vec::new();
    let text = text_value(error.to_owned());
    fields.push(("message".to_owned(), text));
    proof {
        assert(fields@.drop_last() =~= Seq::empty());
        let none = Map::<Seq<char>, Value>::empty();
        assert(collected(fields@.drop_last()) =~= none);
        assert(documents(none) =~= Map::<Seq<char>, Json>::empty());
        document_of_insert(none, "message"@, text);
        error_documents_are_plain(error@, (MAX_DEPTH - 1) as nat);
    }
    reply_envelope(pattern, object_value(fields), correlation_id)
}

proof fn error_documents_are_plain(error: Seq<char>, depth: nat)
    requires
        depth > 0,
    ensures
        plain_within(error_json(error), depth),
{
    assert(plain_within(Json::Text(error), (depth - 1) as nat));
}

/// The texts of an object's fields, where each of them is a text.
fn read_texts(fields: &StringTable<Value>) -> (r: Option<StringTable<String>>)
    ensures
        match r {
            Some(table) => texts_in(documents(fields@)) == Some(texts(table@)),
            None => texts_in(documents(fields@)) is None,
        },
{
    let entries = fields.entries();
    let mut table: StringTable<String> = StringTable::new();
    let ghost untag = |document: Json| document->Text_0;
    let mut i: usize = 0;
    assert(entries@.take(0) =~= Seq::empty());
    assert(texts(table@) =~= documents(collected(entries@.take(0))).map_values(untag));
    while i < entries.len()
        invariant
            i <= entries.len(),
            collected(entries@) == fields@,
            distinct_keys(entries@),
            untag == (|document: Json| document->Text_0),
            forall|j: int| 0 <= j < i ==> json(#[trigger] entries@[j].1) is Text,
            texts(table@) == documents(collected(entries@.take(i as int))).map_values(untag),
        decreases entries.len() - i,
    {
        match text_of(&entries[i].1) {
            Some(text) => {
                let ghost known = table@;
                let text = text.to_owned();
                table.insert(entries[i].0.clone(), text);
                proof {
                    let (key, value) = entries@[i as int];
                    let taken = collected(entries@.take(i as int));
                    assert(entries@.take(i + 1).drop_last() =~= entries@.take(i as int));
                    texts_of_insert(known, key@, text);
                    document_of_insert(taken, key@, value);
                    assert(documents(taken).insert(key@, json(value)).map_values(untag)
                        =~= documents(taken).map_values(untag).insert(key@, text@));
                }
            },
            None => {
                proof {
                    collected_value(entries@, i as int);
                    let key = entries@[i as int].0@;
                    assert(documents(fields@).contains_key(key));
                    assert(!(documents(fields@)[key] is Text));
                }
                return None;
            },
        }
        i = i + 1;
    }
    proof {
        assert(entries@.take(i as int) =~= entries@);
        let all = documents(fields@);
        assert forall|key: Seq<char>| all.contains_key(key) implies #[trigger] all[key] is Text by {
            collected_keys(entries@, key);
            let j = choose|j: int| 0 <= j < entries@.len() && #[trigger] entries@[j].0@ == key;
            collected_value(entries@, j);
        }
    }
    Some(table)
}

/// The metadata that a value holds, if it holds any.
fn read_metadata(value: Value) -> (r: Result<TransportMetadata, String>)
    ensures
        match r {
            Ok(metadata) => metadata_in(json(value)) == Some(metadata@),
            Err(cause) => {
                &&& metadata_in(json(value)) is None
                &&& cause@ == metadata_fault(json(value))
            },
        },
{
    let mut fields = match object_fields(value) {
        Some(fields) => fields,
        None => {
            return Err("invalid type of field `metadata`".to_owned());
        },
    };
    let ghost all = documents(fields@);
    let found = match fields.remove("values") {
        Some(found) => found,
        None => {
            assert(!all.contains_key("values"@));
            return Err("missing field `values`".to_owned());
        },
    };
    assert(all.contains_key("values"@));
    if let Some(values) = object_fields(found) {
        if let Some(values) = read_texts(&values) {
            return Ok(TransportMetadata { values });
        }
    }
    Err("invalid type of field `values`".to_owned())
}

/// The envelope that a value holds, if it holds one.
pub fn envelope_from(value: Value) -> (r: Result<MessageEnvelope, WireError>)
    ensures
        match envelope_in(json(value)) {
            Some(envelope) => r is Ok && r->Ok_0@ == envelope,
            None => r is Err && r->Err_0@ == WireErrorView::Shape(envelope_fault(json(value))),
        },
{
    proof {
        field_names_differ();
    }
    let mut fields = match object_fields(value) {
        Some(fields) => fields,
        None => {
            return Err(WireError::Shape("invalid type of an envelope".to_owned()));
        },
    };
    let ghost all = documents(fields@);
    let pattern = fields.remove("pattern");
    let payload = fields.remove("payload");
    let metadata = fields.remove("metadata");
    assert(pattern is Some <==> all.contains_key("pattern"@));
    assert(payload is Some <==> all.contains_key("payload"@));
    assert(metadata is Some <==> all.contains_key("metadata"@));
    let pattern = match &pattern {
        Some(pattern) => match text_of(pattern) {
            Some(text) => text.to_owned(),
            None => {
                return Err(WireError::Shape("invalid type of field `pattern`".to_owned()));
            },
        },
        None => {
            return Err(WireError::Shape("missing field `pattern`".to_owned()));
        },
    };
    match (payload, metadata) {
        (Some(payload), Some(metadata)) => match read_metadata(metadata) {
            Ok(metadata) => Ok(MessageEnvelope { pattern, payload, metadata }),
            Err(cause) => Err(WireError::Shape(cause)),
        },
        (None, _) => Err(WireError::Shape("missing field `payload`".to_owned())),
        (_, None) => Err(WireError::Shape("missing field `metadata`".to_owned())),
    }
}

/// Reads an envelope.
fn read_envelope(bytes: &[u8]) -> (r: Result<MessageEnvelope, WireError>)
    ensures
        match r {
            Ok(envelope) => envelope_reading(bytes@) == EnvelopeReading::Envelope(envelope@),
            Err(error) => envelope_reading(bytes@) == EnvelopeReading::Failure(error@),
        },
        is_blank(bytes@) ==> r is Err,
{
    match decode_json(bytes) {
        Ok(value) => envelope_from(value),
        Err(error) => Err(error),
    }
}

/// Reads the envelope of an answer.
pub fn parse_reply(bytes: &[u8]) -> (r: Result<MessageEnvelope, WireError>)
    ensures
        match r {
            Ok(envelope) => envelope_reading(bytes@) == EnvelopeReading::Envelope(envelope@),
            Err(error) => envelope_reading(bytes@) == EnvelopeReading::Failure(error@),
        },
        is_blank(bytes@) ==> r is Err,
{
    read_envelope(bytes)
}

/// Reads the envelope of a message.
pub fn parse_message(bytes: &[u8]) -> (r: Result<MessageEnvelope, WireError>)
    ensures
        match r {
            Ok(envelope) => envelope_reading(bytes@) == EnvelopeReading::Envelope(envelope@),
            Err(error) => envelope_reading(bytes@) == EnvelopeReading::Failure(error@),
        },
        is_blank(bytes@) ==> r is Err,
{
    read_envelope(bytes)
}

/// Reads the envelope of an event.
pub fn parse_event(bytes: &[u8]) -> (r: Result<EventEnvelope, WireError>)
    ensures
        match r {
            Ok(envelope) => envelope_reading(bytes@) == EnvelopeReading::Envelope(envelope@),
            Err(error) => envelope_reading(bytes@) == EnvelopeReading::Failure(error@),
        },
        is_blank(bytes@) ==> r is Err,
{
    match read_envelope(bytes) {
        Ok(envelope) => Ok(
            EventEnvelope {
                pattern: envelope.pattern,
                payload: envelope.payload,
                metadata: envelope.metadata,
            },
        ),
        Err(error) => Err(error),
    }
}

/// The header, the kinds and the reserved keys have these names.
pub proof fn names_on_the_wire()
    ensures
        KIND_KEY@ == "nestforge-kind"@,
        KIND_MESSAGE@ == "message"@,
        KIND_EVENT@ == "event"@,
        KIND_REPLY@ == "reply"@,
        KIND_REPLY_ERROR@ == "reply-error"@,
        META_REPLY_TOPIC@ == "nestforge.reply_topic"@,
        META_CORRELATION_ID@ == "nestforge.correlation_id"@,
{
}

/// The headers of a kind are one header, with the kind in UTF-8.
pub proof fn headers_hold_the_kind_alone(kind: Seq<char>)
    ensures
        headers_of_kind(kind).dom() == set!["nestforge-kind"@],
        headers_of_kind(kind)["nestforge-kind"@] == encode_utf8(kind),
{
    assert(headers_of_kind(kind).dom() =~= set!["nestforge-kind"@]);
}

/// The kind is what the one header holds, if that is UTF-8; no other header counts.
pub proof fn kind_is_read_from_its_header(headers: Map<Seq<char>, Seq<u8>>)
    ensures
        headers.contains_key("nestforge-kind"@) && valid_utf8(headers["nestforge-kind"@])
            ==> kind_in(headers) == Some(decode_utf8(headers["nestforge-kind"@])),
        !headers.contains_key("nestforge-kind"@) || !valid_utf8(headers["nestforge-kind"@])
            ==> kind_in(headers) is None,
{
}

/// The bytes of headers stand under their names.
pub proof fn header_bytes_keep_names(headers: Map<Seq<char>, Vec<u8>>, name: Seq<char>)
    ensures
        header_bytes(headers).contains_key(name) == headers.contains_key(name),
        headers.contains_key(name) ==> header_bytes(headers)[name] == headers[name]@,
{
}

/// The document of an envelope has three fields: the pattern, the payload as it is, and
/// the metadata, each entry of it as text.
pub proof fn document_has_the_envelopes_fields(envelope: EnvelopeView)
    ensures
        envelope_json(envelope) is Object,
        ({
            let fields = envelope_json(envelope)->Object_0;
            &&& fields.dom() == set!["pattern"@, "payload"@, "metadata"@]
            &&& fields["pattern"@] == Json::Text(envelope.pattern)
            &&& fields["payload"@] == envelope.payload
            &&& fields["metadata"@] is Object
            &&& fields["metadata"@]->Object_0.dom() == set!["values"@]
            &&& fields["metadata"@]->Object_0["values"@] is Object
            &&& fields["metadata"@]->Object_0["values"@]->Object_0.dom() == envelope.metadata.dom()
            &&& forall|key: Seq<char>|
                envelope.metadata.contains_key(key) ==> #[trigger] fields["metadata"@]->Object_0["values"@]->Object_0[key]
                    == Json::Text(envelope.metadata[key])
        }),
{
    field_names_differ();
    let fields = envelope_json(envelope)->Object_0;
    assert(fields.dom() =~= set!["pattern"@, "payload"@, "metadata"@]);
    assert(fields["metadata"@]->Object_0.dom() =~= set!["values"@]);
    assert(fields["metadata"@]->Object_0["values"@]->Object_0.dom() =~= envelope.metadata.dom());
}

/// An object with a text `pattern`, a `payload` and `metadata` whose `values` are texts
/// holds the envelope of these, whatever other fields it has.
pub proof fn envelope_is_read_from_its_fields(
    fields: Map<Seq<char>, Json>,
    pattern: Seq<char>,
    metadata: Map<Seq<char>, Json>,
    values: Map<Seq<char>, Json>,
)
    requires
        fields.contains_key("pattern"@),
        fields["pattern"@] == Json::Text(pattern),
        fields.contains_key("payload"@),
        fields.contains_key("metadata"@),
        fields["metadata"@] == Json::Object(metadata),
        metadata.contains_key("values"@),
        metadata["values"@] == Json::Object(values),
        forall|key: Seq<char>| values.contains_key(key) ==> #[trigger] values[key] is Text,
    ensures
        envelope_in(Json::Object(fields)) is Some,
        ({
            let envelope = envelope_in(Json::Object(fields))->0;
            &&& envelope.pattern == pattern
            &&& envelope.payload == fields["payload"@]
            &&& envelope.metadata.dom() == values.dom()
            &&& forall|key: Seq<char>|
                values.contains_key(key) ==> #[trigger] values[key] == Json::Text(
                    envelope.metadata[key],
                )
        }),
{
    let envelope = envelope_in(Json::Object(fields))->0;
    assert(envelope.metadata.dom() =~= values.dom());
}

/// No other document holds an envelope.
pub proof fn no_other_document_holds_an_envelope(document: Json)
    requires
        envelope_in(document) is Some,
    ensures
        document is Object,
        ({
            let fields = document->Object_0;
            &&& fields.contains_key("pattern"@)
            &&& fields["pattern"@] is Text
            &&& fields.contains_key("payload"@)
            &&& fields.contains_key("metadata"@)
            &&& fields["metadata"@] is Object
            &&& fields["metadata"@]->Object_0.contains_key("values"@)
            &&& fields["metadata"@]->Object_0["values"@] is Object
            &&& forall|key: Seq<char>|
                fields["metadata"@]->Object_0["values"@]->Object_0.contains_key(key)
                    ==> #[trigger] fields["metadata"@]->Object_0["values"@]->Object_0[key] is Text
        }),
{
}

/// The fault of a document that holds no envelope names the field that is missing or of
/// another type.
pub proof fn fault_names_the_field(document: Json)
    requires
        envelope_in(document) is None,
    ensures
        !(document is Object) ==> envelope_fault(document) == "invalid type of an envelope"@,
        document matches Json::Object(fields) ==> {
            let text = envelope_fault(document);
            &&& !fields.contains_key("pattern"@) ==> text == "missing field `pattern`"@
            &&& fields.contains_key("pattern"@) ==> {
                &&& !(fields["pattern"@] is Text) ==> text == "invalid type of field `pattern`"@
                &&& fields["pattern"@] is Text ==> {
                    &&& !fields.contains_key("payload"@) ==> text == "missing field `payload`"@
                    &&& fields.contains_key("payload"@) && !fields.contains_key("metadata"@) ==> text
                        == "missing field `metadata`"@
                    &&& fields.contains_key("payload"@) && fields.contains_key("metadata"@) ==> (
                    match fields["metadata"@] {
                        Json::Object(inner) => text == if inner.contains_key("values"@) {
                            "invalid type of field `values`"@
                        } else {
                            "missing field `values`"@
                        },
                        _ => text == "invalid type of field `metadata`"@,
                    })
                }
            }
        },
{
}

/// Bytes are read as an envelope exactly if they are a document that holds it; else it is
/// told whether they are no document or what is wrong with it.
pub proof fn envelope_is_read_from_its_document(bytes: Seq<u8>, envelope: EnvelopeView)
    ensures
        envelope_reading(bytes) == EnvelopeReading::Envelope(envelope) <==> json_reading(
            bytes,
        ) is Document && envelope_in(json_reading(bytes)->Document_0) == Some(envelope),
        json_reading(bytes) matches Reading::Error(cause) ==> envelope_reading(bytes)
            == EnvelopeReading::Failure(WireErrorView::Syntax(cause)),
        json_reading(bytes) matches Reading::Document(document) ==> envelope_in(document) is None
            ==> envelope_reading(bytes) == EnvelopeReading::Failure(
            WireErrorView::Shape(envelope_fault(document)),
        ),
{
}

/// After bytes that admit nothing after them, only white space is read.
pub proof fn what_follows_is_refused(bytes: Seq<u8>, rest: Seq<u8>)
    requires
        admits_nothing_after(bytes),
        !is_blank(rest),
    ensures
        json_reading(bytes + rest) is Error,
{
    assert(envelope_reading(bytes + rest) is Failure);
}

/// An envelope is portable exactly if its payload is plain within 126 levels.
pub proof fn portable_is_plain_payload(envelope: EnvelopeView)
    ensures
        is_portable(envelope) <==> plain_within(envelope.payload, 126),
{
}

/// An answer has the request's pattern, the answer as it is, the request's id and an
/// empty reply topic, and no other metadata.
pub proof fn answer_carries_the_id_alone(
    pattern: Seq<char>,
    payload: Json,
    correlation_id: Seq<char>,
)
    ensures
        ({
            let envelope = reply_view(pattern, payload, correlation_id);
            &&& envelope.pattern == pattern
            &&& envelope.payload == payload
            &&& envelope.metadata.dom() == set![
                "nestforge.reply_topic"@,
                "nestforge.correlation_id"@,
            ]
            &&& envelope.metadata["nestforge.reply_topic"@] == Seq::<char>::empty()
            &&& envelope.metadata["nestforge.correlation_id"@] == correlation_id
        }),
{
    reserved_keys_differ();
    assert(reply_view(pattern, payload, correlation_id).metadata.dom() =~= set![
        "nestforge.reply_topic"@,
        "nestforge.correlation_id"@,
    ]);
}

/// A failure is told by an object with its text as the one field `message`.
pub proof fn failure_is_told_as_message(error: Seq<char>)
    ensures
        error_json(error) is Object,
        error_json(error)->Object_0.dom() == set!["message"@],
        error_json(error)->Object_0["message"@] == Json::Text(error),
{
    assert(error_json(error)->Object_0.dom() =~= set!["message"@]);
}

/// What a wire error says, and its text.
pub proof fn wire_errors_in_words(cause: String)
    ensures
        WireError::Serialize(cause)@ == WireErrorView::Serialize(cause@),
        WireError::Syntax(cause)@ == WireErrorView::Syntax(cause@),
        WireError::Shape(cause)@ == WireErrorView::Shape(cause@),
        WireError::Serialize(cause).text() == "failed to serialize record payload"@,
        WireError::Syntax(cause).text() == "failed to deserialize record payload"@,
        WireError::Shape(cause).text() == "failed to deserialize record payload"@,
{
}

} // verus!

use nestforge_transport::json::object_fields;
use nestforge_transport::table::StringTable;
use nestforge_transport::wire::{
    decode_json, encode_event, encode_json, encode_message, envelope_from, envelope_value,
    error_reply_envelope, kind_headers, kind_of, metadata_get, parse_event, parse_message,
    parse_reply, reply_envelope, user_metadata, with_reply_meta, WireError, KIND_EVENT, KIND_KEY,
    KIND_MESSAGE, KIND_REPLY, KIND_REPLY_ERROR, META_CORRELATION_ID, META_REPLY_TOPIC,
};
use nestforge_transport::{EventEnvelope, MessageEnvelope, TransportMetadata};
use serde_json::Value;

fn object(fields: Vec<(&str, Value)>) -> Value {
    let mut map = serde_json::Map::new();
    for (key, value) in fields {
        map.insert(key.to_string(), value);
    }
    Value::Object(map)
}

fn text(value: &str) -> Value {
    Value::String(value.to_string())
}

#[test]
fn message_envelope_roundtrip() {
    let mut metadata = TransportMetadata::new().insert("a", "1");
    metadata = with_reply_meta(metadata, "replies.topic", "cid-1");
    let envelope = MessageEnvelope {
        pattern: "calc.add".to_string(),
        payload: object(vec![("a", Value::from(1)), ("b", Value::from(2))]),
        metadata: metadata.clone(),
    };

    let bytes = encode_message(&envelope).expect("encode");
    let decoded = parse_message(&bytes).expect("decode");
    assert_eq!(decoded.pattern, "calc.add");
    assert_eq!(
        decoded.payload,
        object(vec![("a", Value::from(1)), ("b", Value::from(2))])
    );
    assert_eq!(
        metadata_get(&decoded.metadata, META_REPLY_TOPIC).as_deref(),
        Some("replies.topic")
    );
    assert_eq!(
        metadata_get(&decoded.metadata, META_CORRELATION_ID).as_deref(),
        Some("cid-1")
    );
    assert_eq!(decoded, envelope);
}

#[test]
fn event_envelope_roundtrip() {
    let envelope = EventEnvelope {
        pattern: "users.created".to_string(),
        payload: object(vec![("id", Value::from(7))]),
        metadata: TransportMetadata::default(),
    };
    let decoded = parse_event(&encode_event(&envelope).expect("encode")).expect("decode");
    assert_eq!(decoded.pattern, "users.created");
    assert_eq!(decoded.payload, object(vec![("id", Value::from(7))]));
}

#[test]
fn user_metadata_strips_reserved_keys() {
    let mut metadata = TransportMetadata::new().insert("env", "test");
    metadata = with_reply_meta(metadata, "replies.topic", "cid-1");
    let clean = user_metadata(&metadata);
    assert_eq!(clean.values.get("env").map(String::as_str), Some("test"));
    assert!(clean.values.get(META_REPLY_TOPIC).is_none());
    assert!(clean.values.get(META_CORRELATION_ID).is_none());
}

#[test]
fn kind_headers_roundtrip() {
    let headers = kind_headers(KIND_EVENT);
    assert_eq!(kind_of(&headers).as_deref(), Some(KIND_EVENT));
}

#[test]
fn kinds_and_reserved_keys_have_their_names() {
    assert_eq!(KIND_KEY, "nestforge-kind");
    assert_eq!(KIND_MESSAGE, "message");
    assert_eq!(KIND_EVENT, "event");
    assert_eq!(KIND_REPLY, "reply");
    assert_eq!(KIND_REPLY_ERROR, "reply-error");
    assert_eq!(META_REPLY_TOPIC, "nestforge.reply_topic");
    assert_eq!(META_CORRELATION_ID, "nestforge.correlation_id");
}

#[test]
fn kind_header_holds_the_bytes_of_the_kind() {
    let headers = kind_headers("message");
    assert_eq!(headers.entries().len(), 1);
    assert_eq!(headers.get("nestforge-kind"), Some(&b"message".to_vec()));
}

#[test]
fn kind_that_is_missing_or_no_utf8_is_none() {
    let mut headers: StringTable<Vec<u8>> = StringTable::new();
    assert_eq!(kind_of(&headers), None);
    headers.insert("nestforge-kind".to_string(), vec![0xff, 0xfe]);
    assert_eq!(kind_of(&headers), None);
    headers.insert("nestforge-kind".to_string(), "é".as_bytes().to_vec());
    assert_eq!(kind_of(&headers).as_deref(), Some("é"));
}

#[test]
fn reply_address_replaces_an_earlier_one() {
    let metadata = TransportMetadata::new().insert("nestforge.reply_topic", "old");
    let addressed = with_reply_meta(metadata, "new", "7");
    assert_eq!(
        metadata_get(&addressed, META_REPLY_TOPIC).as_deref(),
        Some("new")
    );
    assert_eq!(metadata_get(&addressed, "other"), None);
    assert_eq!(addressed.values.entries().len(), 2);
}

#[test]
fn stripped_metadata_does_not_depend_on_the_reply_address() {
    let metadata = TransportMetadata::new().insert("env", "test").insert("a", "1");
    let addressed = with_reply_meta(metadata.clone(), "replies", "7");
    assert_eq!(user_metadata(&addressed), metadata);
    assert_eq!(user_metadata(&metadata), metadata);
}

#[test]
fn envelope_is_written_as_an_object() {
    let metadata = TransportMetadata::new().insert("k", "v");
    let value = envelope_value("p.q", &Value::from(3), &metadata);
    assert_eq!(
        value,
        object(vec![
            ("pattern", text("p.q")),
            ("payload", Value::from(3)),
            (
                "metadata",
                object(vec![("values", object(vec![("k", text("v"))]))])
            ),
        ])
    );
    let envelope = MessageEnvelope {
        pattern: "p.q".to_string(),
        payload: Value::from(3),
        metadata,
    };
    assert_eq!(
        encode_message(&envelope),
        Ok(br#"{"metadata":{"values":{"k":"v"}},"pattern":"p.q","payload":3}"#.to_vec())
    );
}

#[test]
fn reply_tells_the_id_and_expects_no_reply() {
    let bytes = reply_envelope("calc.add", Value::from(3), "cid-1").unwrap();
    let reply = parse_reply(&bytes).unwrap();
    assert_eq!(reply.pattern, "calc.add");
    assert_eq!(reply.payload, Value::from(3));
    assert_eq!(
        metadata_get(&reply.metadata, META_CORRELATION_ID).as_deref(),
        Some("cid-1")
    );
    assert_eq!(
        metadata_get(&reply.metadata, META_REPLY_TOPIC).as_deref(),
        Some("")
    );
}

#[test]
fn error_reply_tells_the_error() {
    let bytes = error_reply_envelope("calc.add", "no \"sum\"\n", "cid-2").unwrap();
    let reply = parse_reply(&bytes).unwrap();
    assert_eq!(
        reply.payload,
        object(vec![("message", text("no \"sum\"\n"))])
    );
    assert_eq!(
        metadata_get(&reply.metadata, META_CORRELATION_ID).as_deref(),
        Some("cid-2")
    );
}

#[test]
fn bytes_that_are_no_json_are_a_syntax_error() {
    let error = parse_message(b"{").unwrap_err();
    match &error {
        WireError::Syntax(cause) => {
            assert_eq!(cause, "EOF while parsing an object at line 1 column 1")
        }
        other => panic!("unexpected error: {other:?}"),
    }
    assert_eq!(error.message(), "failed to deserialize record payload");
    assert!(matches!(decode_json(b""), Err(WireError::Syntax(_))));
    assert!(matches!(parse_event(b"nope"), Err(WireError::Syntax(_))));
}

#[test]
fn envelope_with_bytes_after_it_is_refused() {
    let envelope = EventEnvelope {
        pattern: "p".to_string(),
        payload: Value::from(1),
        metadata: TransportMetadata::new(),
    };
    let bytes = encode_event(&envelope).unwrap();
    let with = |rest: &[u8]| [bytes.as_slice(), rest].concat();
    assert_eq!(parse_event(&with(b" \n\t\r")), Ok(envelope.clone()));
    for rest in [&b"x"[..], b"  2", b"}", &[0], &[0xff]] {
        assert!(matches!(parse_event(&with(rest)), Err(WireError::Syntax(_))));
    }
}

#[test]
fn documents_that_are_no_envelopes_have_the_wrong_shape() {
    let metadata = object(vec![("values", object(vec![]))]);
    let wrong = vec![
        Value::Null,
        Value::from(1),
        Value::Array(vec![]),
        object(vec![]),
        object(vec![("payload", Value::Null), ("metadata", metadata.clone())]),
        object(vec![("pattern", text("p")), ("metadata", metadata.clone())]),
        object(vec![("pattern", text("p")), ("payload", Value::Null)]),
        object(vec![
            ("pattern", Value::from(1)),
            ("payload", Value::Null),
            ("metadata", metadata.clone()),
        ]),
        object(vec![
            ("pattern", text("p")),
            ("payload", Value::Null),
            ("metadata", object(vec![])),
        ]),
        object(vec![
            ("pattern", text("p")),
            ("payload", Value::Null),
            ("metadata", text("m")),
        ]),
        object(vec![
            ("pattern", text("p")),
            ("payload", Value::Null),
            ("metadata", object(vec![("values", Value::Null)])),
        ]),
        object(vec![
            ("pattern", text("p")),
            ("payload", Value::Null),
            (
                "metadata",
                object(vec![("values", object(vec![("a", Value::from(1))]))]),
            ),
        ]),
    ];
    let causes = [
        "invalid type of an envelope",
        "invalid type of an envelope",
        "invalid type of an envelope",
        "missing field `pattern`",
        "missing field `pattern`",
        "missing field `payload`",
        "missing field `metadata`",
        "invalid type of field `pattern`",
        "missing field `values`",
        "invalid type of field `metadata`",
        "invalid type of field `values`",
        "invalid type of field `values`",
    ];
    assert_eq!(wrong.len(), causes.len());
    for (value, cause) in wrong.into_iter().zip(causes) {
        assert_eq!(envelope_from(value), Err(WireError::Shape(cause.to_string())));
    }
    assert_eq!(
        WireError::Shape("cause".to_string()).message(),
        "failed to deserialize record payload"
    );
    assert_eq!(
        WireError::Serialize("cause".to_string()).message(),
        "failed to serialize record payload"
    );
}

#[test]
fn other_fields_do_not_count() {
    let value = object(vec![
        ("pattern", text("p")),
        ("payload", Value::Null),
        (
            "metadata",
            object(vec![("values", object(vec![])), ("more", Value::Null)]),
        ),
        ("more", Value::from(1)),
    ]);
    let envelope = envelope_from(value).unwrap();
    assert_eq!(envelope.pattern, "p");
    assert_eq!(envelope.payload, Value::Null);
    assert_eq!(envelope.metadata, TransportMetadata::new());
}

#[test]
fn values_of_integers_are_read_back_down_to_the_depth_limit() {
    let nested = |depth: usize| {
        let mut value = Value::from(u64::MAX);
        for _ in 0..depth {
            value = Value::Array(vec![value, Value::from(i64::MIN)]);
        }
        value
    };
    let deep = nested(127);
    assert_eq!(decode_json(&encode_json(&deep).unwrap()), Ok(deep));
    assert!(decode_json(&encode_json(&nested(128)).unwrap()).is_err());

    let envelope = |payload: Value| MessageEnvelope {
        pattern: "p".to_string(),
        payload,
        metadata: TransportMetadata::new(),
    };
    let portable = envelope(nested(126));
    assert_eq!(
        parse_message(&encode_message(&portable).unwrap()),
        Ok(portable)
    );
    assert!(parse_message(&encode_message(&envelope(nested(127))).unwrap()).is_err());
}

#[test]
fn fields_of_an_object_are_a_table() {
    let fields = object_fields(object(vec![("b", Value::from(2)), ("a", Value::from(1))])).unwrap();
    assert_eq!(fields.get("a"), Some(&Value::from(1)));
    assert_eq!(fields.get("b"), Some(&Value::from(2)));
    assert_eq!(fields.get("c"), None);
    assert!(object_fields(text("a")).is_none());
}

use nestforge_transport::client::{
    answer_from, error_message, finish_emit, read_answer, value_bytes, ClientError, Outgoing,
    PendingReplies, ReplyStep, ReplyWait, SendEvent, SendRun, SendStep,
};
use nestforge_transport::consumer::{
    consume_step, dispatch_inbound_event, dispatch_inbound_message, finish_event, finish_message,
    handle_record, ConsumeStep, ConsumerError, Inbound, ReplyAction, ReplyRoute, StartStep,
};
use nestforge_transport::time::next_correlation_id;
use nestforge_transport::transport::{build_record, KafkaRecord, TransportError};
use nestforge_transport::wire::{
    encode_event, encode_message, error_reply_envelope, metadata_get, parse_event, parse_message,
    reply_envelope, with_reply_meta, WireError,
};
use nestforge_transport::{
    EventEnvelope, KafkaConfig, KafkaConsumerHandle, KafkaMicroserviceClient,
    KafkaMicroserviceConsumer, KafkaStartOffset, KafkaSubscription, MessageEnvelope,
    TransportMetadata,
};
use rskafka::client::consumer::StartOffset;
use serde_json::Value;
use std::time::Duration;

fn config() -> KafkaConfig {
    KafkaConfig::new(vec!["localhost:9092".to_string()])
}

fn client() -> KafkaMicroserviceClient<()> {
    KafkaMicroserviceClient::with_suffix(config(), (), "s1")
        .with_default_metadata(TransportMetadata::new().insert("env", "test"))
}

fn text(value: &str) -> Value {
    Value::String(value.to_string())
}

fn request(payload: Value) -> Outgoing {
    let mut pending: PendingReplies<u8> = PendingReplies::new();
    client()
        .send("users.count".to_string(), "1-0".to_string(), &mut pending, 9)
        .request(Ok(payload))
        .unwrap()
}

#[test]
fn client_has_its_reply_topic() {
    assert_eq!(client().reply_topic(), "nestforge.reply.s1");
    let mut counter: u64 = 41;
    let first = KafkaMicroserviceClient::new(config(), 5u8, &mut counter);
    let second = KafkaMicroserviceClient::new(config(), 6u8, &mut counter);
    assert_eq!(counter, 43);
    assert!(first.reply_topic().starts_with("nestforge.reply."));
    assert!(first.reply_topic().ends_with("-41"));
    assert!(second.reply_topic().ends_with("-42"));
    assert_ne!(first.reply_topic(), second.reply_topic());
    assert_eq!(*first.transport(), 5);
}

#[test]
fn request_carries_the_address_of_its_reply() {
    let client = KafkaMicroserviceClient::with_suffix(
        config()
            .with_topic_prefix("app.".to_string())
            .with_default_partition(2)
            .with_request_timeout(Duration::from_secs(10)),
        (),
        "s1",
    )
    .with_default_metadata(TransportMetadata::new().insert("env", "test"));
    let mut pending: PendingReplies<u8> = PendingReplies::new();
    let call = client.send("users.count".to_string(), "1-0".to_string(), &mut pending, 9);
    assert_eq!(call.pattern, "users.count");
    assert_eq!(call.topic, "app.users.count");
    assert_eq!(call.partition, 2);
    assert_eq!(call.timeout, Duration::from_secs(10));
    assert_eq!(call.correlation_id, "1-0");
    assert_eq!(call.reply_topic, "nestforge.reply.s1");

    let outgoing = call.request(Ok(Value::from(4))).unwrap();
    assert_eq!(outgoing.topic, "app.users.count");
    assert_eq!(outgoing.partition, 2);
    assert_eq!(outgoing.record.key, None);
    let envelope = parse_message(&value_bytes(&outgoing.record)).unwrap();
    assert_eq!(envelope.pattern, "users.count");
    assert_eq!(envelope.payload, Value::from(4));
    assert_eq!(
        envelope.metadata,
        with_reply_meta(
            TransportMetadata::new().insert("env", "test"),
            "nestforge.reply.s1",
            "1-0"
        )
    );
}

#[test]
fn replies_are_read_before_the_first_request() {
    let mut pending: PendingReplies<u8> = PendingReplies::new();
    let call = client().send("p".to_string(), "1-0".to_string(), &mut pending, 9);
    let task = call.listen(false).unwrap();
    assert_eq!(task.topic, "nestforge.reply.s1");
    assert_eq!(task.partition, 0);
    assert!(matches!(task.start, StartOffset::Earliest));
    assert_eq!(task.max_wait_ms, 500);
    assert!(call.listen(true).is_none());
    assert_eq!(call.listening(Ok(4)).unwrap(), 4);
    let error = call
        .listening::<u8>(Err(TransportError::Connect("refused".to_string())))
        .unwrap_err();
    assert_eq!(error.message(), "failed to connect to kafka brokers");
}

#[test]
fn request_reaches_handler_with_the_senders_metadata() {
    let outgoing = request(text("hello"));
    match handle_record(&outgoing.record) {
        Inbound::Message {
            envelope,
            context,
            route,
        } => {
            assert_eq!(envelope.payload, text("hello"));
            assert_eq!(context.transport, "kafka");
            assert_eq!(context.pattern, "users.count");
            assert_eq!(context.metadata, TransportMetadata::new().insert("env", "test"));
            assert_eq!(route.pattern, "users.count");
            assert_eq!(route.reply_topic.as_deref(), Some("nestforge.reply.s1"));
            assert_eq!(route.correlation_id.as_deref(), Some("1-0"));
        }
        _ => panic!("a request is a message"),
    }
}

fn answered(outcome: Result<Value, String>) -> KafkaRecord {
    let route = match handle_record(&request(text("hello")).record) {
        Inbound::Message { route, .. } => route,
        _ => panic!("a request is a message"),
    };
    match finish_message(&route, outcome) {
        ReplyAction::Produce {
            topic,
            partition,
            record,
        } => {
            assert_eq!(topic, "nestforge.reply.s1");
            assert_eq!(partition, 0);
            record
        }
        _ => panic!("the request expects a reply"),
    }
}

#[test]
fn request_is_answered_to_its_sender() {
    let mut pending: PendingReplies<u8> = PendingReplies::new();
    let call = client().send("users.count".to_string(), "1-0".to_string(), &mut pending, 9);
    pending.register("other".to_string(), 8);

    let record = answered(Ok(Value::from(3)));
    match pending.reply_step(Ok(record)) {
        ReplyStep::Deliver(delivery) => {
            assert_eq!(delivery.waiter, 9);
            assert_eq!(delivery.outcome, Ok(Value::from(3)));
            let result = call.finish(&mut pending, ReplyWait::Answered(delivery.outcome));
            assert_eq!(result.unwrap(), Value::from(3));
        }
        _ => panic!("the request waits"),
    }
    assert!(matches!(
        pending.reply_step(Ok(answered(Ok(Value::from(3))))),
        ReplyStep::Skip
    ));
    assert!(pending
        .deliver(&build_record(
            "reply",
            reply_envelope("p", Value::Null, "other").unwrap(),
            None
        ))
        .is_some());
}

#[test]
fn failure_is_answered_to_its_sender() {
    let mut pending: PendingReplies<u8> = PendingReplies::new();
    let call = client().send("users.count".to_string(), "1-0".to_string(), &mut pending, 9);
    let delivery = pending
        .deliver(&answered(Err("no such user".to_string())))
        .unwrap();
    assert_eq!(delivery.outcome, Err("no such user".to_string()));
    let error = call
        .finish(&mut pending, ReplyWait::Answered(delivery.outcome))
        .unwrap_err();
    assert_eq!(
        error.message(),
        "remote error for `users.count`: no such user"
    );
}

#[test]
fn late_answer_is_skipped() {
    let mut pending: PendingReplies<u8> = PendingReplies::new();
    let call = client().send("users.count".to_string(), "1-0".to_string(), &mut pending, 9);
    let error = call.finish(&mut pending, ReplyWait::TimedOut).unwrap_err();
    assert_eq!(
        error.message(),
        "kafka reply timed out after 30s for pattern `users.count`"
    );
    assert!(pending.deliver(&answered(Ok(Value::Null))).is_none());
}

#[test]
fn timeout_is_told_as_it_was_set() {
    let client = KafkaMicroserviceClient::with_suffix(
        config().with_request_timeout(Duration::from_millis(1500)),
        (),
        "s",
    );
    let mut pending: PendingReplies<u8> = PendingReplies::new();
    let call = client.send("p".to_string(), "1-0".to_string(), &mut pending, 9);
    assert_eq!(
        call.finish(&mut pending, ReplyWait::TimedOut).unwrap_err().message(),
        "kafka reply timed out after 1.5s for pattern `p`"
    );
    assert_eq!(
        call.finish(&mut pending, ReplyWait::ChannelClosed).unwrap_err().message(),
        "kafka reply channel closed for pattern `p`"
    );
    assert_eq!(call.produced(Ok(())).unwrap(), Duration::from_millis(1500));
    assert_eq!(
        call.produced(Err(TransportError::Connect("gone".to_string()))).unwrap_err().message(),
        "failed to produce message to `p`"
    );
}

#[test]
fn event_reaches_handlers() {
    let outgoing = client()
        .emit("users.created".to_string(), Ok(Value::from(7)))
        .unwrap();
    assert_eq!(outgoing.topic, "users.created");
    assert_eq!(outgoing.partition, 0);
    match handle_record(&outgoing.record) {
        Inbound::Event { envelope, context } => {
            assert_eq!(envelope.pattern, "users.created");
            assert_eq!(envelope.payload, Value::from(7));
            assert_eq!(context.transport, "kafka");
            assert_eq!(context.metadata, TransportMetadata::new().insert("env", "test"));
        }
        _ => panic!("an event is an event"),
    }
    assert!(read_answer(&outgoing.record).is_none());
}

#[test]
fn payload_that_is_no_json_fails_before_it_is_sent() {
    let error = client()
        .emit("p".to_string(), Err("bad".to_string()))
        .err()
        .unwrap();
    assert_eq!(error.message(), "failed to serialize outbound event payload");
    let mut pending: PendingReplies<u8> = PendingReplies::new();
    let error = client()
        .send("p".to_string(), "1".to_string(), &mut pending, 0)
        .request(Err("bad".to_string()))
        .err()
        .unwrap();
    assert_eq!(error.message(), "failed to serialize outbound message payload");
}

#[test]
fn records_that_are_neither_message_nor_event_are_ignored() {
    let value = encode_message(&MessageEnvelope {
        pattern: "p".to_string(),
        payload: Value::Null,
        metadata: TransportMetadata::new(),
    })
    .unwrap();
    for kind in ["reply", "reply-error", "", "Message", "other"] {
        assert!(matches!(
            handle_record(&build_record(kind, value.clone(), None)),
            Inbound::Ignore
        ));
    }
    let mut record = build_record("message", value.clone(), None);
    record.value = None;
    assert!(matches!(handle_record(&record), Inbound::Ignore));
    assert!(value_bytes(&record).is_empty());
    assert!(matches!(
        handle_record(&build_record("event", b"no json".to_vec(), None)),
        Inbound::Ignore
    ));
    let mut record = build_record("message", value, None);
    record.headers.remove("nestforge-kind");
    assert!(matches!(handle_record(&record), Inbound::Ignore));
}

#[test]
fn message_without_reply_address_is_not_answered() {
    let envelope = MessageEnvelope {
        pattern: "p".to_string(),
        payload: Value::Null,
        metadata: TransportMetadata::new().insert("nestforge.correlation_id", "1"),
    };
    let route = match dispatch_inbound_message(envelope) {
        Inbound::Message { route, .. } => route,
        _ => panic!("a message is a message"),
    };
    assert_eq!(route.reply_topic, None);
    assert!(matches!(
        finish_message(&route, Ok(Value::Null)),
        ReplyAction::Nothing
    ));
    match finish_message(&route, Err("boom".to_string())) {
        ReplyAction::Report(report) => {
            assert_eq!(report, "kafka message handler failed for `p`: boom")
        }
        _ => panic!("a failure is reported"),
    }
    let half = ReplyRoute {
        pattern: "p".to_string(),
        reply_topic: Some("t".to_string()),
        correlation_id: None,
    };
    assert!(matches!(
        finish_message(&half, Ok(Value::Null)),
        ReplyAction::Nothing
    ));
}

#[test]
fn event_handler_failure_is_reported() {
    assert_eq!(finish_event(Ok(())), None);
    assert_eq!(
        finish_event(Err("boom".to_string())).as_deref(),
        Some("kafka event handler failed: boom")
    );
    let event = EventEnvelope {
        pattern: "p".to_string(),
        payload: Value::Null,
        metadata: with_reply_meta(TransportMetadata::new(), "t", "c"),
    };
    assert_eq!(parse_event(&encode_event(&event).unwrap()), Ok(event.clone()));
    match dispatch_inbound_event(event) {
        Inbound::Event { envelope, context } => {
            assert_eq!(
                metadata_get(&envelope.metadata, "nestforge.reply_topic").as_deref(),
                Some("t")
            );
            assert_eq!(context.metadata, TransportMetadata::new());
        }
        _ => panic!("an event is an event"),
    }
}

#[test]
fn readers_end_on_an_error() {
    match consume_step("users.count", Err("gone".to_string())) {
        ConsumeStep::Stop(report) => {
            assert_eq!(report, "kafka consumer error on users.count: gone")
        }
        ConsumeStep::Handle(_) => panic!("an error ends the reader"),
    }
    assert!(matches!(
        consume_step("t", Ok(build_record("other", vec![], None))),
        ConsumeStep::Handle(Inbound::Ignore)
    ));
    let mut pending: PendingReplies<u8> = PendingReplies::new();
    pending.register("1".to_string(), 1);
    match pending.reply_step(Err("gone".to_string())) {
        ReplyStep::Stop(report) => assert_eq!(report, "kafka reply consumer error: gone"),
        _ => panic!("an error ends the reader"),
    }
}

#[test]
fn answers_tell_their_request_and_outcome() {
    let answer = read_answer(&build_record(
        "reply-error",
        error_reply_envelope("p", "boom", "7").unwrap(),
        None,
    ))
    .unwrap();
    assert_eq!(answer.correlation_id, "7");
    assert_eq!(answer.outcome, Err("boom".to_string()));
    let nameless = MessageEnvelope {
        pattern: "p".to_string(),
        payload: Value::Null,
        metadata: TransportMetadata::new(),
    };
    assert!(answer_from(nameless.clone(), false).is_none());
    assert!(read_answer(&build_record("reply", encode_message(&nameless).unwrap(), None)).is_none());
    assert!(read_answer(&build_record("reply", b"no json".to_vec(), None)).is_none());
}

#[test]
fn failure_without_a_message_is_unknown() {
    let mut fields = serde_json::Map::new();
    fields.insert("message".to_string(), text("boom"));
    assert_eq!(error_message(&Value::Object(fields.clone())), "boom");
    fields.insert("message".to_string(), Value::from(1));
    for payload in [
        Value::Object(fields),
        Value::Object(serde_json::Map::new()),
        Value::Null,
        text("message"),
    ] {
        assert_eq!(error_message(&payload), "unknown kafka reply error");
    }
}

#[test]
fn consumer_starts_one_task_for_each_subscription() {
    let consumer = KafkaMicroserviceConsumer::new(3u8)
        .subscribe(KafkaSubscription::new("users.count".to_string()))
        .subscribe(
            KafkaSubscription::new("users.created".to_string())
                .partition(1)
                .start(KafkaStartOffset::At(5))
                .max_wait_ms(100),
        );
    assert_eq!(*consumer.transport(), 3);
    assert_eq!(consumer.subscriptions().len(), 2);
    let start = consumer.spawn().unwrap();
    let tasks = start.tasks().to_vec();
    assert_eq!(tasks.len(), 2);
    assert_eq!(tasks[0].topic, "users.count");
    assert_eq!(tasks[0].partition, 0);
    assert!(matches!(tasks[0].start, StartOffset::Earliest));
    assert_eq!(tasks[0].max_wait_ms, 500);
    assert_eq!(tasks[1].topic, "users.created");
    assert_eq!(tasks[1].partition, 1);
    assert!(matches!(tasks[1].start, StartOffset::At(5)));
    assert_eq!(tasks[1].max_wait_ms, 100);

    assert_eq!(tasks[1].opened(Ok(4)), Ok(4));
    let error = tasks[1]
        .opened::<u8>(Err(TransportError::Connect("x".to_string())))
        .unwrap_err();
    assert_eq!(error.message(), "failed to open subscription users.created:1");

    let handle = KafkaConsumerHandle { tasks };
    assert_eq!(handle.task_count(), 2);
    assert_eq!(handle.shutdown().len(), 2);
}

fn two_subscriptions() -> KafkaMicroserviceConsumer<u8> {
    KafkaMicroserviceConsumer::new(3)
        .subscribe(KafkaSubscription::new("a".to_string()))
        .subscribe(KafkaSubscription::new("b".to_string()).partition(1))
}

#[test]
fn consumer_connects_and_then_opens_its_partitions_in_order() {
    let start = two_subscriptions().spawn().unwrap();
    assert!(matches!(start.step(), StartStep::Connect));
    let start = start.advance(Ok(())).unwrap();
    match start.step() {
        StartStep::Open(task) => assert_eq!((task.topic.as_str(), task.partition), ("a", 0)),
        _ => panic!("the first partition is next"),
    }
    let start = start.advance(Ok(())).unwrap();
    match start.step() {
        StartStep::Open(task) => assert_eq!((task.topic.as_str(), task.partition), ("b", 1)),
        _ => panic!("the second partition is next"),
    }
    let start = start.advance(Ok(())).unwrap();
    assert!(matches!(start.step(), StartStep::Done));
    assert!(matches!(start.advance(Ok(())).unwrap().step(), StartStep::Done));
}

#[test]
fn start_ends_at_the_first_failure() {
    let refused = || Err(TransportError::Connect("refused".to_string()));
    let error = two_subscriptions().spawn().unwrap().advance(refused()).unwrap_err();
    assert_eq!(
        error,
        ConsumerError::Connect(TransportError::Connect("refused".to_string()))
    );
    assert_eq!(error.message(), "failed to connect to kafka brokers");
    let start = two_subscriptions().spawn().unwrap();
    let start = start.advance(Ok(())).unwrap().advance(Ok(())).unwrap();
    let error = start.advance(refused()).unwrap_err();
    assert_eq!(error.message(), "failed to open subscription b:1");
}

#[test]
fn clones_are_alike() {
    let copy = client().clone();
    assert_eq!(copy.reply_topic(), "nestforge.reply.s1");
    let mut pending: PendingReplies<u8> = PendingReplies::new();
    let call = client().send("p".to_string(), "1".to_string(), &mut pending, 0);
    let other = copy.send("p".to_string(), "1".to_string(), &mut pending, 0);
    assert_eq!(other.metadata, call.metadata);
    assert_eq!(other.topic, call.topic);
    let consumer = two_subscriptions().clone();
    assert_eq!(*consumer.transport(), 3);
    assert_eq!(consumer.subscriptions().len(), 2);
    assert_eq!(consumer.subscriptions()[1].topic, "b");
}

#[test]
fn consumer_without_subscriptions_does_not_start() {
    let error = KafkaMicroserviceConsumer::new(()).spawn().err().unwrap();
    assert_eq!(error, ConsumerError::NoSubscriptions);
    assert_eq!(error.message(), "no kafka subscriptions configured");
}

#[test]
fn client_errors_in_words() {
    assert_eq!(
        ClientError::Encode(WireError::Serialize("x".to_string())).message(),
        "failed to serialize record payload"
    );
    let mut pending: PendingReplies<u8> = PendingReplies::new();
    let call = client().send("p".to_string(), "1".to_string(), &mut pending, 0);
    assert_eq!(call.response(Ok(5)).unwrap(), 5);
    assert_eq!(
        call.response::<u8>(Err("x".to_string())).unwrap_err().message(),
        "failed to deserialize kafka reply response"
    );
    assert!(finish_emit("t".to_string(), Ok(())).is_ok());
    assert_eq!(
        finish_emit("t".to_string(), Err(TransportError::Connect("x".to_string())))
            .unwrap_err()
            .message(),
        "failed to produce event to `t`"
    );
}

#[test]
fn requests_are_told_apart_whatever_the_default_metadata_holds() {
    let client = KafkaMicroserviceClient::with_suffix(config(), (), "s1").with_default_metadata(
        with_reply_meta(TransportMetadata::new().insert("env", "test"), "old", "old"),
    );
    let mut counter: u64 = 0;
    let mut pending: PendingReplies<u8> = PendingReplies::new();
    let mut ids = Vec::new();
    for sender in [client.clone(), client] {
        let id = next_correlation_id(&mut counter);
        let call = sender.send("p".to_string(), id.clone(), &mut pending, 0);
        assert_eq!(
            call.metadata,
            with_reply_meta(
                TransportMetadata::new().insert("env", "test"),
                "nestforge.reply.s1",
                &id
            )
        );
        ids.push(id);
    }
    assert_ne!(ids[0], ids[1]);
}

fn start(running: bool, payload: Result<Value, String>, pending: &mut PendingReplies<u8>) -> SendRun {
    let call = client().send("users.count".to_string(), "1-0".to_string(), pending, 9);
    SendRun::start(call, running, payload).unwrap()
}

#[test]
fn request_goes_step_by_step() {
    let mut pending: PendingReplies<u8> = PendingReplies::new();
    let run = start(false, Ok(Value::from(4)), &mut pending);
    match run.step() {
        SendStep::Listen(task) => assert_eq!(task.topic, "nestforge.reply.s1"),
        _ => panic!("replies are read first"),
    }
    let run = run
        .advance(&mut pending, SendEvent::Waited(ReplyWait::TimedOut))
        .unwrap();
    assert!(matches!(run.step(), SendStep::Listen(_)));
    let run = run.advance(&mut pending, SendEvent::Acted(Ok(()))).unwrap();
    match run.step() {
        SendStep::Produce(request) => {
            assert_eq!((request.topic.as_str(), request.partition), ("users.count", 0));
            let envelope = parse_message(&value_bytes(&request.record)).unwrap();
            assert_eq!(envelope.payload, Value::from(4));
        }
        _ => panic!("the record is produced next"),
    }
    let run = run.advance(&mut pending, SendEvent::Acted(Ok(()))).unwrap();
    assert!(matches!(run.step(), SendStep::Wait(timeout) if timeout == Duration::from_secs(30)));
    let answer = ReplyWait::Answered(Ok(Value::from(5)));
    let run = run.advance(&mut pending, SendEvent::Waited(answer)).unwrap();
    assert!(matches!(run.step(), SendStep::Done(value) if *value == Value::from(5)));
    assert_eq!(run.call().correlation_id, "1-0");
    assert!(pending.deliver(&answered(Ok(Value::Null))).is_none());
}

#[test]
fn request_needs_no_second_reader_of_replies() {
    let mut pending: PendingReplies<u8> = PendingReplies::new();
    let run = start(true, Ok(Value::Null), &mut pending);
    assert!(matches!(run.step(), SendStep::Produce(_)));
    let call = client().send("p".to_string(), "2".to_string(), &mut pending, 9);
    let error = SendRun::start(call, true, Err("bad".to_string())).unwrap_err();
    assert_eq!(error.message(), "failed to serialize outbound message payload");
}

#[test]
fn request_ends_at_the_first_failure() {
    let refused = || SendEvent::Acted(Err(TransportError::Connect("refused".to_string())));
    let mut pending: PendingReplies<u8> = PendingReplies::new();

    let run = start(false, Err("bad".to_string()), &mut pending);
    let error = run.advance(&mut pending, refused()).unwrap_err();
    assert_eq!(error.message(), "failed to connect to kafka brokers");

    let run = start(false, Err("bad".to_string()), &mut pending);
    let error = run.advance(&mut pending, SendEvent::Acted(Ok(()))).unwrap_err();
    assert_eq!(error.message(), "failed to serialize outbound message payload");

    let run = start(true, Ok(Value::Null), &mut pending);
    let error = run.advance(&mut pending, refused()).unwrap_err();
    assert_eq!(error.message(), "failed to produce message to `users.count`");
    assert!(pending.deliver(&answered(Ok(Value::Null))).is_some());

    let run = start(true, Ok(Value::Null), &mut pending);
    let run = run.advance(&mut pending, SendEvent::Acted(Ok(()))).unwrap();
    let error = run
        .advance(&mut pending, SendEvent::Waited(ReplyWait::TimedOut))
        .unwrap_err();
    assert_eq!(
        error.message(),
        "kafka reply timed out after 30s for pattern `users.count`"
    );
    assert!(pending.deliver(&answered(Ok(Value::Null))).is_none());
}

#[test]
fn records_without_a_value_lead_to_nothing() {
    let mut pending: PendingReplies<u8> = PendingReplies::new();
    pending.register("1-0".to_string(), 9);
    for kind in ["message", "event", "reply", "reply-error"] {
        let mut record = build_record(kind, vec![], None);
        record.value = None;
        assert!(matches!(handle_record(&record), Inbound::Ignore));
        assert!(read_answer(&record).is_none());
        assert!(pending.deliver(&record).is_none());
    }
    assert!(pending.deliver(&answered(Ok(Value::Null))).is_some());
}

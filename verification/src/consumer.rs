//! The receiving side: records of the subscribed topics go to handlers, and what
//! came of a request goes back to whom it came from.

use crate::client::{
    answer_in, failure_survives_reply, outcome_view, still_waiting, value_bytes, value_of, waiter_of,
    AnswerView, OutcomeView, SendCall,
};
use crate::config::{starts_keep_their_names, KafkaStartOffset, KafkaSubscription};
use crate::envelope::{
    ContextView, EnvelopeView, EventEnvelope, MessageEnvelope, MicroserviceContext,
};
use crate::json::{json_text, Json};
use crate::text::{same_text, signed_decimal};
use crate::time::told_as_now;
use crate::transport::{
    build_record, partition_name, partition_name_is_topic_and_number, partition_text,
    record_holds_what_it_is_made_of, record_of, KafkaRecord, RecordView, TransportError,
};
use crate::wire::{
    answer_carries_the_id_alone, envelope_in, envelope_json, envelope_reading,
    envelope_survives_document, error_json, error_reply_envelope, failure_is_told_as_message, kind_in,
    kind_of, kind_survives_headers, metadata_get, parse_event, parse_message, reply_address_is_read_back,
    reply_entries, reply_envelope, reply_view, reserved_keys_are_stripped, user_entries,
    user_metadata, EnvelopeReading, KIND_EVENT, KIND_MESSAGE, KIND_REPLY, KIND_REPLY_ERROR,
    META_CORRELATION_ID, META_REPLY_TOPIC,
};
use rskafka::client::consumer::StartOffset;
use serde_json::Value;
use vstd::prelude::*;
use vstd::std_specs::convert::FromSpec;

verus! {

/// The name of this transport in a handler's context.
pub const KAFKA_TRANSPORT: &'static str = "kafka";

/// What optional text is.
pub open spec fn text_view(text: Option<String>) -> Option<Seq<char>> {
    match text {
        Some(text) => Some(text@),
        None => None,
    }
}

/// Where the answer to a message goes.
#[verifier::ext_equal]
pub struct RouteView {
    pub pattern: Seq<char>,
    pub reply_topic: Option<Seq<char>>,
    pub correlation_id: Option<Seq<char>>,
}

/// Where the answer to a message goes: it is answered only if both the topic and
/// the id are told.
#[derive(Debug, Clone, PartialEq, Eq)]
pub struct ReplyRoute {
    pub pattern: String,
    pub reply_topic: Option<String>,
    pub correlation_id: Option<String>,
}

impl View for ReplyRoute {
    type V = RouteView;

    open spec fn view(&self) -> RouteView {
        RouteView {
            pattern: self.pattern@,
            reply_topic: text_view(self.reply_topic),
            correlation_id: text_view(self.correlation_id),
        }
    }
}

/// The value of a metadata key, if it has one.
pub open spec fn entry(metadata: Map<Seq<char>, Seq<char>>, key: Seq<char>) -> Option<Seq<char>> {
    if metadata.contains_key(key) {
        Some(metadata[key])
    } else {
        None
    }
}

/// The context of a handler of an envelope.
pub open spec fn context_of(envelope: EnvelopeView) -> ContextView {
    ContextView {
        transport: KAFKA_TRANSPORT@,
        pattern: envelope.pattern,
        metadata: user_entries(envelope.metadata),
    }
}

/// Where the answer to a message goes.
pub open spec fn route_of(envelope: EnvelopeView) -> RouteView {
    RouteView {
        pattern: envelope.pattern,
        reply_topic: entry(envelope.metadata, META_REPLY_TOPIC@),
        correlation_id: entry(envelope.metadata, META_CORRELATION_ID@),
    }
}

/// What is to be done with a record.
#[verifier::ext_equal]
pub enum InboundView {
    Ignore,
    Message { envelope: EnvelopeView, context: ContextView, route: RouteView },
    Event { envelope: EnvelopeView, context: ContextView },
}

/// What is to be done with a record.
pub enum Inbound {
    /// Nothing: it is neither a message nor an event, or it cannot be read.
    Ignore,
    /// Hand the message to its handler, and the outcome to [`finish_message`].
    Message { envelope: MessageEnvelope, context: MicroserviceContext, route: ReplyRoute },
    /// Hand the event to its handlers, and the outcome to [`finish_event`].
    Event { envelope: EventEnvelope, context: MicroserviceContext },
}

impl View for Inbound {
    type V = InboundView;

    open spec fn view(&self) -> InboundView {
        match self {
            Inbound::Ignore => InboundView::Ignore,
            Inbound::Message { envelope, context, route } => InboundView::Message {
                envelope: envelope@,
                context: context@,
                route: route@,
            },
            Inbound::Event { envelope, context } => InboundView::Event {
                envelope: envelope@,
                context: context@,
            },
        }
    }
}

/// What is to be done with a record: its kind decides.
pub open spec fn inbound(record: RecordView) -> InboundView {
    if kind_in(record.headers) == Some(KIND_MESSAGE@) {
        match envelope_reading(value_of(record)) {
            EnvelopeReading::Envelope(envelope) => InboundView::Message {
                envelope,
                context: context_of(envelope),
                route: route_of(envelope),
            },
            EnvelopeReading::Failure(_) => InboundView::Ignore,
        }
    } else if kind_in(record.headers) == Some(KIND_EVENT@) {
        match envelope_reading(value_of(record)) {
            EnvelopeReading::Envelope(envelope) => InboundView::Event {
                envelope,
                context: context_of(envelope),
            },
            EnvelopeReading::Failure(_) => InboundView::Ignore,
        }
    } else {
        InboundView::Ignore
    }
}

/// Hands a record on according to its kind. One without a value is ignored.
pub fn handle_record(record: &KafkaRecord) -> (r: Inbound)
    ensures
        r@ == inbound(record@),
        record@.value is None ==> r is Ignore,
{
    let kind = match kind_of(&record.headers) {
        Some(kind) => kind,
        None => {
            return Inbound::Ignore;
        },
    };
    if same_text(kind.as_str(), KIND_MESSAGE) {
        match parse_message(value_bytes(record).as_slice()) {
            Ok(envelope) => dispatch_inbound_message(envelope),
            Err(_) => Inbound::Ignore,
        }
    } else if same_text(kind.as_str(), KIND_EVENT) {
        match parse_event(value_bytes(record).as_slice()) {
            Ok(envelope) => dispatch_inbound_event(envelope),
            Err(_) => Inbound::Ignore,
        }
    } else {
        Inbound::Ignore
    }
}

/// Hands a message on, with the context of its handler and the route of its
/// answer.
pub fn dispatch_inbound_message(envelope: MessageEnvelope) -> (r: Inbound)
    ensures
        r@ == (InboundView::Message {
            envelope: envelope@,
            context: context_of(envelope@),
            route: route_of(envelope@),
        }),
{
    let context = MicroserviceContext {
        transport: KAFKA_TRANSPORT.to_owned(),
        pattern: envelope.pattern.clone(),
        metadata: user_metadata(&envelope.metadata),
    };
    let route = ReplyRoute {
        pattern: envelope.pattern.clone(),
        reply_topic: metadata_get(&envelope.metadata, META_REPLY_TOPIC),
        correlation_id: metadata_get(&envelope.metadata, META_CORRELATION_ID),
    };
    Inbound::Message { envelope, context, route }
}

/// Hands an event on, with the context of its handlers.
pub fn dispatch_inbound_event(envelope: EventEnvelope) -> (r: Inbound)
    ensures
        r@ == (InboundView::Event { envelope: envelope@, context: context_of(envelope@) }),
{
    let context = MicroserviceContext {
        transport: KAFKA_TRANSPORT.to_owned(),
        pattern: envelope.pattern.clone(),
        metadata: user_metadata(&envelope.metadata),
    };
    Inbound::Event { envelope, context }
}

/// What is to be done once a message was handled.
#[verifier::ext_equal]
pub enum ReplyActionView {
    Produce { topic: Seq<char>, partition: int, record: RecordView },
    Report(Seq<char>),
    Nothing,
}

/// What is to be done once a message was handled.
pub enum ReplyAction {
    /// Produce the answer.
    Produce { topic: String, partition: i32, record: KafkaRecord },
    /// Report this.
    Report(String),
    /// Nothing.
    Nothing,
}

impl View for ReplyAction {
    type V = ReplyActionView;

    open spec fn view(&self) -> ReplyActionView {
        match self {
            ReplyAction::Produce { topic, partition, record } => ReplyActionView::Produce {
                topic: topic@,
                partition: *partition as int,
                record: record@,
            },
            ReplyAction::Report(text) => ReplyActionView::Report(text@),
            ReplyAction::Nothing => ReplyActionView::Nothing,
        }
    }
}

/// The four kinds differ.
pub proof fn kinds_differ()
    ensures
        KIND_MESSAGE@ != KIND_EVENT@,
        KIND_MESSAGE@ != KIND_REPLY@,
        KIND_MESSAGE@ != KIND_REPLY_ERROR@,
        KIND_EVENT@ != KIND_REPLY@,
        KIND_EVENT@ != KIND_REPLY_ERROR@,
        KIND_REPLY@ != KIND_REPLY_ERROR@,
{
    reveal_strlit("message");
    reveal_strlit("event");
    reveal_strlit("reply");
    reveal_strlit("reply-error");
    assert(KIND_MESSAGE@.len() == 7);
    assert(KIND_EVENT@.len() == 5 && KIND_EVENT@[0] == 'e');
    assert(KIND_REPLY@.len() == 5 && KIND_REPLY@[0] == 'r');
    assert(KIND_REPLY_ERROR@.len() == 11);
}

/// The envelope of an answer.
pub open spec fn answer_envelope(
    pattern: Seq<char>,
    outcome: OutcomeView,
    correlation_id: Seq<char>,
) -> EnvelopeView {
    match outcome {
        OutcomeView::Value(payload) => reply_view(pattern, payload, correlation_id),
        OutcomeView::Error(error) => reply_view(pattern, error_json(error), correlation_id),
    }
}

/// The record of an answer.
pub open spec fn answer_record(
    pattern: Seq<char>,
    outcome: OutcomeView,
    correlation_id: Seq<char>,
) -> RecordView {
    record_of(
        match outcome {
            OutcomeView::Value(_) => KIND_REPLY@,
            OutcomeView::Error(_) => KIND_REPLY_ERROR@,
        },
        json_text(envelope_json(answer_envelope(pattern, outcome, correlation_id))),
        None,
    )
}

/// What is to be done once a message was handled: it is answered, in partition 0
/// of the reply topic, where the route tells both the topic and the id; else a
/// failure is reported.
pub open spec fn reply_action(route: RouteView, outcome: OutcomeView) -> ReplyActionView {
    match (route.reply_topic, route.correlation_id) {
        (Some(topic), Some(correlation_id)) => ReplyActionView::Produce {
            topic,
            partition: 0,
            record: answer_record(route.pattern, outcome, correlation_id),
        },
        _ => match outcome {
            OutcomeView::Value(_) => ReplyActionView::Nothing,
            OutcomeView::Error(error) => ReplyActionView::Report(
                "kafka message handler failed for `"@ + route.pattern + "`: "@ + error,
            ),
        },
    }
}

/// Whether an outcome is sure to be read back as it was sent: a failure always
/// is, a value if it has no number but integers and is not nested too deep.
pub open spec fn is_portable_outcome(outcome: OutcomeView) -> bool {
    match outcome {
        OutcomeView::Value(payload) => crate::json::plain_within(
            payload,
            (crate::json::MAX_DEPTH - 1) as nat,
        ),
        OutcomeView::Error(_) => true,
    }
}

/// An answer that can be read tells the outcome of the request that it answers.
pub proof fn answer_tells_outcome(
    pattern: Seq<char>,
    outcome: OutcomeView,
    correlation_id: Seq<char>,
)
    requires
        envelope_reading(
            json_text(envelope_json(answer_envelope(pattern, outcome, correlation_id))),
        ) == EnvelopeReading::Envelope(answer_envelope(pattern, outcome, correlation_id)),
    ensures
        answer_in(answer_record(pattern, outcome, correlation_id)) == Some(
            AnswerView { correlation_id, outcome },
        ),
{
    kind_survives_headers(KIND_REPLY@);
    kind_survives_headers(KIND_REPLY_ERROR@);
    kinds_differ();
    reply_address_is_read_back(
        Map::<Seq<char>, Seq<char>>::empty(),
        Seq::<char>::empty(),
        correlation_id,
    );
    if let OutcomeView::Error(error) = outcome {
        failure_survives_reply(error);
    }
}

/// A request that can be read reaches its handler with the sender's metadata, less
/// the reserved keys, and its answer is addressed to the sender.
pub proof fn request_reaches_handler(
    request: EnvelopeView,
    metadata: Map<Seq<char>, Seq<char>>,
    reply_topic: Seq<char>,
    correlation_id: Seq<char>,
    value: Seq<u8>,
)
    requires
        request.metadata == reply_entries(metadata, reply_topic, correlation_id),
        envelope_reading(value) == EnvelopeReading::Envelope(request),
    ensures
        inbound(record_of(KIND_MESSAGE@, value, None)) == (InboundView::Message {
            envelope: request,
            context: ContextView {
                transport: KAFKA_TRANSPORT@,
                pattern: request.pattern,
                metadata: user_entries(metadata),
            },
            route: RouteView {
                pattern: request.pattern,
                reply_topic: Some(reply_topic),
                correlation_id: Some(correlation_id),
            },
        }),
{
    kind_survives_headers(KIND_MESSAGE@);
    reply_address_is_read_back(metadata, reply_topic, correlation_id);
    reserved_keys_are_stripped(metadata, reply_topic, correlation_id);
}

/// An event that can be read reaches its handlers with the sender's metadata, less
/// the reserved keys.
pub proof fn event_reaches_handlers(event: EnvelopeView, value: Seq<u8>)
    requires
        envelope_reading(value) == EnvelopeReading::Envelope(event),
    ensures
        inbound(record_of(KIND_EVENT@, value, None)) == (InboundView::Event {
            envelope: event,
            context: ContextView {
                transport: KAFKA_TRANSPORT@,
                pattern: event.pattern,
                metadata: user_entries(event.metadata),
            },
        }),
{
    kind_survives_headers(KIND_EVENT@);
    kinds_differ();
}

/// A request is answered to whom it came from: whatever came of it, a value or an
/// error, is produced to the sender's reply topic, and there delivered to the one
/// who waits under the request's id.
pub proof fn request_is_answered<T>(
    request: EnvelopeView,
    metadata: Map<Seq<char>, Seq<char>>,
    reply_topic: Seq<char>,
    correlation_id: Seq<char>,
    value: Seq<u8>,
    outcome: OutcomeView,
    waiting: Map<Seq<char>, T>,
)
    requires
        request.metadata == reply_entries(metadata, reply_topic, correlation_id),
        envelope_reading(value) == EnvelopeReading::Envelope(request),
        envelope_reading(
            json_text(envelope_json(answer_envelope(request.pattern, outcome, correlation_id))),
        ) == EnvelopeReading::Envelope(answer_envelope(request.pattern, outcome, correlation_id)),
        waiting.contains_key(correlation_id),
    ensures
        ({
            let answer = answer_record(request.pattern, outcome, correlation_id);
            &&& inbound(record_of(KIND_MESSAGE@, value, None)) matches InboundView::Message {
                route,
                ..
            } && reply_action(route, outcome) == (ReplyActionView::Produce {
                topic: reply_topic,
                partition: 0,
                record: answer,
            })
            &&& waiter_of(waiting, answer) == Some(waiting[correlation_id])
            &&& answer_in(answer)->0.outcome == outcome
            &&& still_waiting(waiting, answer) == waiting.remove(correlation_id)
        }),
{
    request_reaches_handler(request, metadata, reply_topic, correlation_id, value);
    answer_tells_outcome(request.pattern, outcome, correlation_id);
}

/// A consumer hands no answer to a handler, and a client takes no message or event
/// for an answer.
pub proof fn kinds_are_kept_apart(record: RecordView)
    ensures
        answer_in(record) is Some ==> inbound(record) == InboundView::Ignore,
        inbound(record) != InboundView::Ignore ==> answer_in(record) is None,
{
    kinds_differ();
}

/// Decides what is to be done once a message was handled. An answer that is
/// portable is read as the outcome of the request that it answers.
pub fn finish_message(route: &ReplyRoute, outcome: Result<Value, String>) -> (r: ReplyAction)
    ensures
        r@ == reply_action(route@, outcome_view(outcome)),
        r is Produce ==> told_as_now(r->Produce_record.timestamp),
        r is Produce && is_portable_outcome(outcome_view(outcome)) ==> {
            let id = route@.correlation_id->0;
            let answer = answer_envelope(route@.pattern, outcome_view(outcome), id);
            &&& envelope_reading(json_text(envelope_json(answer))) == EnvelopeReading::Envelope(
                answer,
            )
            &&& answer_in(r->Produce_record@) == Some(
                (AnswerView { correlation_id: id, outcome: outcome_view(outcome) }),
            )
        },
{
    proof {
        let answer = answer_envelope(
            route.pattern@,
            outcome_view(outcome),
            route@.correlation_id->0,
        );
        if envelope_reading(json_text(envelope_json(answer))) == EnvelopeReading::Envelope(answer) {
            answer_tells_outcome(
                route.pattern@,
                outcome_view(outcome),
                route@.correlation_id->0,
            );
        }
    }
    match (&route.reply_topic, &route.correlation_id) {
        (Some(reply_topic), Some(correlation_id)) => match outcome {
            Ok(payload) => match reply_envelope(
                route.pattern.as_str(),
                payload,
                correlation_id.as_str(),
            ) {
                Ok(bytes) => ReplyAction::Produce {
                    topic: reply_topic.clone(),
                    partition: 0,
                    record: build_record(KIND_REPLY, bytes, None),
                },
                Err(error) => ReplyAction::Report(
                    "kafka failed to build reply: ".to_owned().concat(error.message().as_str()),
                ),
            },
            Err(error) => match error_reply_envelope(
                route.pattern.as_str(),
                error.as_str(),
                correlation_id.as_str(),
            ) {
                Ok(bytes) => ReplyAction::Produce {
                    topic: reply_topic.clone(),
                    partition: 0,
                    record: build_record(KIND_REPLY_ERROR, bytes, None),
                },
                Err(_) => ReplyAction::Nothing,
            },
        },
        _ => match outcome {
            Ok(_) => ReplyAction::Nothing,
            Err(error) => ReplyAction::Report(
                "kafka message handler failed for `".to_owned().concat(
                    route.pattern.as_str(),
                ).concat("`: ").concat(error.as_str()),
            ),
        },
    }
}

/// What is to be reported once an event was handled: a failure.
pub fn finish_event(outcome: Result<(), String>) -> (r: Option<String>)
    ensures
        match outcome {
            Ok(_) => r is None,
            Err(error) => r is Some && r->0@ == "kafka event handler failed: "@ + error@,
        },
{
    match outcome {
        Ok(_) => None,
        Err(error) => Some("kafka event handler failed: ".to_owned().concat(error.as_str())),
    }
}

/// What the reader of a subscription does next.
pub enum ConsumeStep {
    /// Hand a record on.
    Handle(Inbound),
    /// Report this, and end.
    Stop(String),
}

/// What the reader of a topic does with what it got: a record, or the text of an
/// error.
pub fn consume_step(topic: &str, item: Result<KafkaRecord, String>) -> (r: ConsumeStep)
    ensures
        match item {
            Ok(record) => {
                &&& r is Handle
                &&& r->Handle_0@ == inbound(record@)
                &&& record@.value is None ==> r->Handle_0 is Ignore
            },
            Err(error) => r is Stop && r->Stop_0@ == "kafka consumer error on "@ + topic@ + ": "@
                + error@,
        },
{
    match item {
        Ok(record) => ConsumeStep::Handle(handle_record(&record)),
        Err(error) => ConsumeStep::Stop(
            "kafka consumer error on ".to_owned().concat(topic).concat(": ").concat(
                error.as_str(),
            ),
        ),
    }
}

/// Why a consumer could not start.
#[derive(Debug, Clone, PartialEq, Eq)]
pub enum ConsumerError {
    /// It subscribes to nothing.
    NoSubscriptions,
    /// The brokers could not be reached.
    Connect(TransportError),
    /// A partition could not be opened; with the cause.
    OpenSubscription { topic: String, partition: i32, cause: TransportError },
}

impl ConsumerError {
    /// The text of the error, without its cause.
    pub open spec fn text(self) -> Seq<char> {
        match self {
            ConsumerError::NoSubscriptions => "no kafka subscriptions configured"@,
            ConsumerError::Connect(error) => error.text(),
            ConsumerError::OpenSubscription { topic, partition, .. } => "failed to open subscription "@
                + partition_name(topic@, partition as int),
        }
    }

    /// What failed, in words.
    pub fn message(&self) -> (r: String)
        ensures
            r@ == self.text(),
    {
        match self {
            ConsumerError::NoSubscriptions => "no kafka subscriptions configured".to_owned(),
            ConsumerError::Connect(error) => error.message(),
            ConsumerError::OpenSubscription { topic, partition, .. } => "failed to open subscription ".to_owned().concat(
                partition_text(topic.as_str(), *partition).as_str(),
            ),
        }
    }
}

/// A task that reads one partition.
#[derive(Debug)]
pub struct ConsumeTask {
    pub topic: String,
    pub partition: i32,
    pub start: StartOffset,
    pub max_wait_ms: i32,
}

impl Clone for ConsumeTask {
    fn clone(&self) -> (r: Self)
        ensures
            r == *self,
    {
        ConsumeTask {
            topic: self.topic.clone(),
            partition: self.partition,
            start: self.start,
            max_wait_ms: self.max_wait_ms,
        }
    }
}

impl ConsumeTask {
    /// The handle of the task's partition, once it was to be opened.
    pub fn opened<P>(&self, outcome: Result<P, TransportError>) -> (r: Result<P, ConsumerError>)
        ensures
            match outcome {
                Ok(handle) => r is Ok && r->Ok_0 == handle,
                Err(cause) => {
                    &&& r is Err
                    &&& r->Err_0 is OpenSubscription
                    &&& r->Err_0->OpenSubscription_topic@ == self.topic@
                    &&& r->Err_0->OpenSubscription_partition == self.partition
                    &&& r->Err_0->OpenSubscription_cause == cause
                },
            },
    {
        match outcome {
            Ok(handle) => Ok(handle),
            Err(cause) => Err(
                ConsumerError::OpenSubscription {
                    topic: self.topic.clone(),
                    partition: self.partition,
                    cause,
                },
            ),
        }
    }
}

/// Whether a task reads what a subscription names.
pub open spec fn reads(task: ConsumeTask, subscription: KafkaSubscription) -> bool {
    &&& task.topic@ == subscription.topic@
    &&& task.partition == subscription.partition
    &&& task.start == StartOffset::from_spec(subscription.start)
    &&& task.max_wait_ms == subscription.max_wait_ms
}

/// How far the start of a consumer has got.
#[verifier::ext_equal]
pub struct StartView {
    /// The tasks to start.
    pub tasks: Seq<ConsumeTask>,
    /// Whether the brokers were reached.
    pub connected: bool,
    /// How many tasks have their partition open.
    pub opened: nat,
}

/// What a start does next.
#[verifier::ext_equal]
pub enum StartStepView {
    Connect,
    Open(ConsumeTask),
    Done,
}

impl StartView {
    /// The state before anything was done.
    pub open spec fn fresh(tasks: Seq<ConsumeTask>) -> Self {
        StartView { tasks, connected: false, opened: 0 }
    }

    /// What comes next: first the connection, then the partitions of the tasks, in
    /// their order.
    pub open spec fn next(self) -> StartStepView {
        if !self.connected {
            StartStepView::Connect
        } else if self.opened < self.tasks.len() {
            StartStepView::Open(self.tasks[self.opened as int])
        } else {
            StartStepView::Done
        }
    }

    /// The start once what comes next has succeeded.
    pub open spec fn advanced(self) -> Self {
        match self.next() {
            StartStepView::Connect => StartView { connected: true, ..self },
            StartStepView::Open(_) => StartView { opened: self.opened + 1, ..self },
            StartStepView::Done => self,
        }
    }

    /// The start after so many successes.
    pub open spec fn after(tasks: Seq<ConsumeTask>, successes: nat) -> Self
        decreases successes,
    {
        if successes == 0 {
            StartView::fresh(tasks)
        } else {
            StartView::after(tasks, (successes - 1) as nat).advanced()
        }
    }
}

/// A start connects before anything else, then opens one partition after the other,
/// each task's once and in the order of the tasks, and is done after the last. It
/// ends at the first failure, since a failure leaves no start to go on with.
pub proof fn start_goes_in_order(tasks: Seq<ConsumeTask>, successes: nat)
    ensures
        StartView::after(tasks, successes).next() == if successes == 0 {
            StartStepView::Connect
        } else if successes <= tasks.len() {
            StartStepView::Open(tasks[successes - 1])
        } else {
            StartStepView::Done
        },
{
    start_after(tasks, successes);
}

proof fn start_after(tasks: Seq<ConsumeTask>, successes: nat)
    ensures
        StartView::after(tasks, successes) == (StartView {
            tasks,
            connected: successes > 0,
            opened: if successes == 0 {
                0
            } else if successes <= tasks.len() {
                (successes - 1) as nat
            } else {
                tasks.len()
            },
        }),
    decreases successes,
{
    if successes > 0 {
        start_after(tasks, (successes - 1) as nat);
    }
}

/// What a start does next.
pub enum StartStep<'a> {
    /// Connect to the brokers.
    Connect,
    /// Open the partition that a task reads, and run it.
    Open(&'a ConsumeTask),
    /// Nothing: every task runs.
    Done,
}

/// A consumer that starts.
#[derive(Debug)]
pub struct ConsumerStart {
    tasks: Vec<ConsumeTask>,
    connected: bool,
    opened: usize,
}

impl View for ConsumerStart {
    type V = StartView;

    closed spec fn view(&self) -> StartView {
        StartView { tasks: self.tasks@, connected: self.connected, opened: self.opened as nat }
    }
}

impl ConsumerStart {
    /// The start of these tasks.
    pub fn new(tasks: Vec<ConsumeTask>) -> (r: Self)
        ensures
            r@ == StartView::fresh(tasks@),
    {
        ConsumerStart { tasks, connected: false, opened: 0 }
    }

    /// The tasks to start, in their order.
    pub fn tasks(&self) -> (r: &[ConsumeTask])
        ensures
            r@ == self@.tasks,
    {
        self.tasks.as_slice()
    }

    /// What comes next.
    pub fn step(&self) -> (r: StartStep<'_>)
        ensures
            match self@.next() {
                StartStepView::Connect => r is Connect,
                StartStepView::Open(task) => r == StartStep::Open(&task),
                StartStepView::Done => r is Done,
            },
    {
        if !self.connected {
            StartStep::Connect
        } else if self.opened < self.tasks.len() {
            StartStep::Open(&self.tasks[self.opened])
        } else {
            StartStep::Done
        }
    }

    /// The start once what came next was to be done: it goes on after a success, and
    /// ends with a failure. Where nothing was left to be done, it stays as it is.
    pub fn advance(self, last: Result<(), TransportError>) -> (r: Result<Self, ConsumerError>)
        ensures
            match (self@.next(), last) {
                (StartStepView::Connect, Err(error)) => {
                    &&& r is Err
                    &&& r->Err_0 == ConsumerError::Connect(error)
                },
                (StartStepView::Open(task), Err(cause)) => {
                    &&& r is Err
                    &&& r->Err_0 is OpenSubscription
                    &&& r->Err_0->OpenSubscription_topic@ == task.topic@
                    &&& r->Err_0->OpenSubscription_partition == task.partition
                    &&& r->Err_0->OpenSubscription_cause == cause
                },
                _ => r is Ok && r->Ok_0@ == self@.advanced(),
            },
    {
        if !self.connected {
            match last {
                Ok(_) => Ok(ConsumerStart { connected: true, ..self }),
                Err(error) => Err(ConsumerError::Connect(error)),
            }
        } else if self.opened < self.tasks.len() {
            match self.tasks[self.opened].opened(last) {
                Ok(_) => Ok(ConsumerStart { opened: self.opened + 1, ..self }),
                Err(error) => Err(error),
            }
        } else {
            Ok(self)
        }
    }
}

/// What a consumer is made of.
#[verifier::ext_equal]
#[verifier::reject_recursive_types(T)]
pub struct ConsumerView<T> {
    pub transport: T,
    pub subscriptions: Seq<KafkaSubscription>,
}

/// A consumer of subscribed topics over a transport `T`.
#[verifier::reject_recursive_types(T)]
#[derive(Debug)]
pub struct KafkaMicroserviceConsumer<T> {
    transport: T,
    subscriptions: Vec<KafkaSubscription>,
}

impl<T> View for KafkaMicroserviceConsumer<T> {
    type V = ConsumerView<T>;

    closed spec fn view(&self) -> ConsumerView<T> {
        ConsumerView { transport: self.transport, subscriptions: self.subscriptions@ }
    }
}

impl<T: Clone> Clone for KafkaMicroserviceConsumer<T> {
    /// A clone has the same subscriptions.
    fn clone(&self) -> (r: Self)
        ensures
            cloned(self@.transport, r@.transport),
            r@.subscriptions == self@.subscriptions,
    {
        let subscriptions = self.subscriptions.clone();
        assert(subscriptions@ =~= self.subscriptions@);
        KafkaMicroserviceConsumer { transport: self.transport.clone(), subscriptions }
    }
}

impl<T> KafkaMicroserviceConsumer<T> {
    /// A consumer that subscribes to nothing yet.
    pub fn new(transport: T) -> (r: Self)
        ensures
            r@ == (ConsumerView { transport, subscriptions: Seq::<KafkaSubscription>::empty() }),
    {
        KafkaMicroserviceConsumer { transport, subscriptions: Vec::new() }
    }

    /// The consumer with one more subscription.
    pub fn subscribe(self, subscription: KafkaSubscription) -> (r: Self)
        ensures
            r@ == (ConsumerView {
                subscriptions: self@.subscriptions.push(subscription),
                ..self@
            }),
    {
        let mut subscriptions = self.subscriptions;
        subscriptions.push(subscription);
        KafkaMicroserviceConsumer { transport: self.transport, subscriptions }
    }

    /// The subscriptions, in the order in which they were made.
    pub fn subscriptions(&self) -> (r: &[KafkaSubscription])
        ensures
            r@ == self@.subscriptions,
    {
        self.subscriptions.as_slice()
    }

    /// The transport.
    pub fn transport(&self) -> (r: &T)
        ensures
            *r == self@.transport,
    {
        &self.transport
    }

    /// The start of the consumer: one task for each subscription, in their order,
    /// none of them running yet. A consumer that subscribes to nothing does not start.
    pub fn spawn(&self) -> (r: Result<ConsumerStart, ConsumerError>)
        ensures
            if self@.subscriptions.len() == 0 {
                r is Err && r->Err_0 == ConsumerError::NoSubscriptions
            } else {
                &&& r is Ok
                &&& r->Ok_0@ == StartView::fresh(r->Ok_0@.tasks)
                &&& r->Ok_0@.tasks.len() == self@.subscriptions.len()
                &&& forall|i: int|
                    0 <= i < self@.subscriptions.len() ==> reads(
                        #[trigger] r->Ok_0@.tasks[i],
                        self@.subscriptions[i],
                    )
                &&& forall|i: int|
                    0 <= i < self@.subscriptions.len() ==> (
                    #[trigger] r->Ok_0@.tasks[i]).topic@ == self@.subscriptions[i].topic@
                        && r->Ok_0@.tasks[i].partition == self@.subscriptions[i].partition
                        && r->Ok_0@.tasks[i].max_wait_ms == self@.subscriptions[i].max_wait_ms
                        && r->Ok_0@.tasks[i].start == (match self@.subscriptions[i].start {
                        KafkaStartOffset::Earliest => StartOffset::Earliest,
                        KafkaStartOffset::Latest => StartOffset::Latest,
                        KafkaStartOffset::At(offset) => StartOffset::At(offset),
                    })
            },
    {
        if self.subscriptions.len() == 0 {
            return Err(ConsumerError::NoSubscriptions);
        }
        let mut tasks: Vec<ConsumeTask> = Vec::new();
        let mut i: usize = 0;
        while i < self.subscriptions.len()
            invariant
                i <= self.subscriptions.len(),
                tasks.len() == i,
                forall|j: int|
                    0 <= j < i ==> reads(#[trigger] tasks@[j], self.subscriptions@[j]),
            decreases self.subscriptions.len() - i,
        {
            let subscription = &self.subscriptions[i];
            tasks.push(
                ConsumeTask {
                    topic: subscription.topic.clone(),
                    partition: subscription.partition,
                    start: StartOffset::from(subscription.start),
                    max_wait_ms: subscription.max_wait_ms,
                },
            );
            i = i + 1;
        }
        Ok(ConsumerStart::new(tasks))
    }
}

/// The tasks of a consumer that runs. `J` is the handle of one.
pub struct KafkaConsumerHandle<J> {
    pub tasks: Vec<J>,
}

impl<J> KafkaConsumerHandle<J> {
    /// How many tasks there are.
    pub fn task_count(&self) -> (r: usize)
        ensures
            r == self.tasks@.len(),
    {
        self.tasks.len()
    }

    /// The tasks that have to be stopped: all of them.
    pub fn shutdown(self) -> (r: Vec<J>)
        ensures
            r == self.tasks,
    {
        self.tasks
    }
}

/// A route says its pattern, its topic and its id.
pub proof fn route_says_its_fields(route: ReplyRoute)
    ensures
        route@.pattern == route.pattern@,
        route.reply_topic matches Some(topic) ==> route@.reply_topic == Some(topic@),
        route.reply_topic is None ==> route@.reply_topic is None,
        route.correlation_id matches Some(id) ==> route@.correlation_id == Some(id@),
        route.correlation_id is None ==> route@.correlation_id is None,
{
}

/// What is to be done with a record says the envelope, the context and the route.
pub proof fn inbound_says_its_fields(
    message: MessageEnvelope,
    event: EventEnvelope,
    context: MicroserviceContext,
    route: ReplyRoute,
)
    ensures
        Inbound::Ignore@ == InboundView::Ignore,
        (Inbound::Message { envelope: message, context, route })@ == (InboundView::Message {
            envelope: message@,
            context: context@,
            route: route@,
        }),
        (Inbound::Event { envelope: event, context })@ == (InboundView::Event {
            envelope: event@,
            context: context@,
        }),
{
}

/// What is to be done once a message was handled says the topic, the partition, the record
/// and the report.
pub proof fn reply_action_says_its_fields(
    topic: String,
    partition: i32,
    record: KafkaRecord,
    report: String,
)
    ensures
        (ReplyAction::Produce { topic, partition, record })@ == (ReplyActionView::Produce {
            topic: topic@,
            partition: partition as int,
            record: record@,
        }),
        ReplyAction::Report(report)@ == ReplyActionView::Report(report@),
        ReplyAction::Nothing@ == ReplyActionView::Nothing,
{
}

/// A handler's context tells the transport `kafka`, the pattern of the envelope and its
/// metadata less the reserved keys.
pub proof fn context_is_that_of_the_envelope(envelope: EnvelopeView, key: Seq<char>)
    ensures
        context_of(envelope).transport == "kafka"@,
        context_of(envelope).pattern == envelope.pattern,
        context_of(envelope).metadata.contains_key(key) <==> envelope.metadata.contains_key(key)
            && key != "nestforge.reply_topic"@ && key != "nestforge.correlation_id"@,
        context_of(envelope).metadata.contains_key(key) ==> context_of(envelope).metadata[key]
            == envelope.metadata[key],
{
    reserved_keys_are_stripped(envelope.metadata, Seq::empty(), Seq::empty());
}

/// The route of an answer is what the metadata tells under the reserved keys.
pub proof fn route_is_read_from_metadata(envelope: EnvelopeView)
    ensures
        route_of(envelope).pattern == envelope.pattern,
        envelope.metadata.contains_key("nestforge.reply_topic"@) ==> route_of(envelope).reply_topic
            == Some(envelope.metadata["nestforge.reply_topic"@]),
        !envelope.metadata.contains_key("nestforge.reply_topic"@) ==> route_of(
            envelope,
        ).reply_topic is None,
        envelope.metadata.contains_key("nestforge.correlation_id"@) ==> route_of(
            envelope,
        ).correlation_id == Some(envelope.metadata["nestforge.correlation_id"@]),
        !envelope.metadata.contains_key("nestforge.correlation_id"@) ==> route_of(
            envelope,
        ).correlation_id is None,
{
}

/// A record's kind decides what is done with it: a `message` goes to its handler and an
/// `event` to its handlers, the envelope as it was read; all else is ignored.
pub proof fn kind_decides(record: RecordView, envelope: EnvelopeView)
    requires
        envelope_reading(value_of(record)) == EnvelopeReading::Envelope(envelope),
    ensures
        kind_in(record.headers) == Some("message"@) ==> inbound(record) == (InboundView::Message {
            envelope,
            context: context_of(envelope),
            route: route_of(envelope),
        }),
        kind_in(record.headers) == Some("event"@) ==> inbound(record) == (InboundView::Event {
            envelope,
            context: context_of(envelope),
        }),
        kind_in(record.headers) != Some("message"@) && kind_in(record.headers) != Some("event"@)
            ==> inbound(record) == InboundView::Ignore,
{
    kinds_differ();
}

/// A record whose value is no envelope is ignored.
pub proof fn unreadable_record_is_ignored(record: RecordView)
    requires
        envelope_reading(value_of(record)) is Failure,
    ensures
        inbound(record) == InboundView::Ignore,
{
}

/// The record of an answer is of kind `reply` for a value and `reply-error` for a failure,
/// without a key, and its value is a document that holds the pattern, the value or the
/// failure's message, and the request's id.
pub proof fn answer_record_tells_the_outcome(
    pattern: Seq<char>,
    outcome: OutcomeView,
    correlation_id: Seq<char>,
) -> (document: Json)
    ensures
        ({
            let record = answer_record(pattern, outcome, correlation_id);
            &&& record.key is None
            &&& record.value == Some(json_text(document))
            &&& outcome is Value ==> kind_in(record.headers) == Some("reply"@)
            &&& outcome is Error ==> kind_in(record.headers) == Some("reply-error"@)
            &&& record.headers.dom() == set!["nestforge-kind"@]
            &&& envelope_in(document) is Some
            &&& envelope_in(document)->0.pattern == pattern
            &&& outcome matches OutcomeView::Value(value) ==> envelope_in(document)->0.payload
                == value
            &&& outcome matches OutcomeView::Error(error) ==> envelope_in(document)->0.payload
                == Json::Object(
                Map::<Seq<char>, Json>::empty().insert("message"@, Json::Text(error)),
            )
            &&& envelope_in(document)->0.metadata.dom() == set![
                "nestforge.reply_topic"@,
                "nestforge.correlation_id"@,
            ]
            &&& envelope_in(document)->0.metadata["nestforge.reply_topic"@] == Seq::<char>::empty()
            &&& envelope_in(document)->0.metadata["nestforge.correlation_id"@] == correlation_id
        }),
{
    let envelope = answer_envelope(pattern, outcome, correlation_id);
    kind_survives_headers("reply"@);
    kind_survives_headers("reply-error"@);
    record_holds_what_it_is_made_of(KIND_REPLY@, json_text(envelope_json(envelope)), None);
    record_holds_what_it_is_made_of(KIND_REPLY_ERROR@, json_text(envelope_json(envelope)), None);
    envelope_survives_document(envelope);
    match outcome {
        OutcomeView::Value(value) => {
            answer_carries_the_id_alone(pattern, value, correlation_id);
        },
        OutcomeView::Error(error) => {
            answer_carries_the_id_alone(pattern, error_json(error), correlation_id);
            failure_is_told_as_message(error);
            assert(error_json(error)->Object_0 =~= Map::<Seq<char>, Json>::empty().insert(
                "message"@,
                Json::Text(error),
            ));
        },
    }
    envelope_json(envelope)
}

/// A handled message is answered exactly if its route tells both a topic and an id: to
/// partition 0 of that topic, under that id, whatever came of it. Else a failure is
/// reported, and nothing is done about a value.
pub proof fn answered_only_where_addressed(route: RouteView, outcome: OutcomeView)
    ensures
        route.reply_topic is Some && route.correlation_id is Some ==> reply_action(route, outcome)
            == (ReplyActionView::Produce {
            topic: route.reply_topic->0,
            partition: 0,
            record: answer_record(route.pattern, outcome, route.correlation_id->0),
        }),
        route.reply_topic is None || route.correlation_id is None ==> {
            &&& outcome is Value ==> reply_action(route, outcome) == ReplyActionView::Nothing
            &&& outcome matches OutcomeView::Error(error) ==> reply_action(route, outcome)
                == ReplyActionView::Report(
                "kafka message handler failed for `"@ + route.pattern + "`: "@ + error,
            )
        },
{
}

/// Replies are read where answers are produced: the task of a call that reads its replies
/// reads the topic and the partition to which the answer to its request is produced, from
/// the earliest record on, whatever the partition of the request is.
pub proof fn replies_are_read_where_answers_go(
    call: SendCall,
    task: ConsumeTask,
    metadata: Map<Seq<char>, Seq<char>>,
    payload: Json,
    outcome: OutcomeView,
)
    requires
        call.reads_replies(task),
        call.metadata@ == reply_entries(metadata, call.reply_topic@, call.correlation_id@),
    ensures
        reply_action(route_of(call.envelope(payload)), outcome) matches ReplyActionView::Produce {
            topic,
            partition,
            ..
        } && task.topic@ == topic && task.partition == partition,
        task.partition == 0,
        task.start == StartOffset::Earliest,
{
    reply_address_is_read_back(metadata, call.reply_topic@, call.correlation_id@);
}

/// A value is portable within 126 levels, and a failure always.
pub proof fn portable_outcomes(outcome: OutcomeView)
    ensures
        outcome matches OutcomeView::Value(payload) ==> is_portable_outcome(outcome)
            == crate::json::plain_within(payload, 126),
        outcome is Error ==> is_portable_outcome(outcome),
{
}

/// A task that reads a subscription starts where the subscription says, and reads its
/// topic and partition with its wait.
pub proof fn task_starts_where_subscribed(task: ConsumeTask, subscription: KafkaSubscription)
    requires
        reads(task, subscription),
    ensures
        task.topic@ == subscription.topic@,
        task.partition == subscription.partition,
        task.max_wait_ms == subscription.max_wait_ms,
        subscription.start is Earliest ==> task.start == StartOffset::Earliest,
        subscription.start is Latest ==> task.start == StartOffset::Latest,
        subscription.start matches KafkaStartOffset::At(offset) ==> task.start == StartOffset::At(
            offset,
        ),
{
    if let KafkaStartOffset::At(offset) = subscription.start {
        starts_keep_their_names(offset);
    } else {
        starts_keep_their_names(0);
    }
}

/// Subscriptions that start at different places have tasks that do.
pub proof fn tasks_tell_starts_apart(
    task: ConsumeTask,
    a: KafkaSubscription,
    b: KafkaSubscription,
)
    requires
        reads(task, a),
        reads(task, b),
    ensures
        a.start == b.start,
        a.topic@ == b.topic@,
        a.partition == b.partition,
        a.max_wait_ms == b.max_wait_ms,
{
    task_starts_where_subscribed(task, a);
    task_starts_where_subscribed(task, b);
}

/// The steps of a start, from whatever state: what comes next, and what a success leads
/// to, which leaves the tasks as they are.
pub proof fn start_advances(start: StartView)
    ensures
        start.advanced().tasks == start.tasks,
        !start.connected ==> start.next() is Connect && start.advanced().connected
            && start.advanced().opened == start.opened,
        start.connected && start.opened < start.tasks.len() ==> start.next() == StartStepView::Open(
            start.tasks[start.opened as int],
        ) && start.advanced().connected && start.advanced().opened == start.opened + 1,
        start.connected && start.opened >= start.tasks.len() ==> start.next() is Done
            && start.advanced() == start,
        StartView::fresh(start.tasks) == (StartView {
            tasks: start.tasks,
            connected: false,
            opened: 0,
        }),
{
}

/// The texts of consumer errors.
pub proof fn consumer_errors_in_words(topic: String, partition: i32, cause: TransportError)
    ensures
        ConsumerError::NoSubscriptions.text() == "no kafka subscriptions configured"@,
        ConsumerError::Connect(cause).text() == cause.text(),
        (ConsumerError::OpenSubscription { topic, partition, cause }).text()
            == "failed to open subscription "@ + (topic@ + ":"@ + signed_decimal(partition as int)),
{
    partition_name_is_topic_and_number(topic@, partition as int);
}

} // verus!

//! The sending side: requests, which wait for a reply on the client's own reply
//! topic, and events.

use crate::config::{topic_of, KafkaConfig};
use crate::consumer::ConsumeTask;
use crate::envelope::{EnvelopeView, EventEnvelope, MessageEnvelope, TransportMetadata};
use crate::json::{field, json, json_text, plain_within, text_of, Json};
use crate::table::StringTable;
use crate::text::{decimal, same_text};
use crate::time::{
    clock_stamped, clock_stamped_ids_carry_numbers, clock_time_is_read_from_id, duration_debug,
    duration_nanos, duration_text, ids_of_different_numbers_differ, told_as_now, told_by_clock,
    unique_suffix,
};
use crate::transport::{
    build_record, record_holds_what_it_is_made_of, record_of, KafkaRecord, RecordView, TransportError,
};
use crate::wire::{
    document_has_the_envelopes_fields, encode_event, encode_message, envelope_in, envelope_json,
    envelope_reading, envelope_survives_document, error_json, is_portable, kind_in, kind_of,
    kind_survives_headers, metadata_get, parse_reply, reply_address_is_read_back, reply_entries,
    reserved_keys_are_stripped, user_entries, with_reply_meta, EnvelopeReading, WireError,
    KIND_EVENT, KIND_MESSAGE, KIND_REPLY, KIND_REPLY_ERROR, META_CORRELATION_ID, META_REPLY_TOPIC,
};
use rskafka::client::consumer::StartOffset;
use serde_json::Value;
use std::time::Duration;
use vstd::prelude::*;
use vstd::utf8::encode_utf8;

verus! {

/// What came of a request: a value, or the text of an error.
#[verifier::ext_equal]
pub enum OutcomeView {
    Value(Json),
    Error(Seq<char>),
}

/// What an outcome says.
pub open spec fn outcome_view(outcome: Result<Value, String>) -> OutcomeView {
    match outcome {
        Ok(value) => OutcomeView::Value(json(value)),
        Err(error) => OutcomeView::Error(error@),
    }
}

/// The text of the failure that an error reply's payload tells of.
pub open spec fn failure_text(payload: Json) -> Seq<char> {
    match payload {
        Json::Object(fields) => if fields.contains_key("message"@) && fields["message"@] is Text {
            fields["message"@]->Text_0
        } else {
            "unknown kafka reply error"@
        },
        _ => "unknown kafka reply error"@,
    }
}

/// The text of the failure that an error reply's payload tells of.
pub fn error_message(payload: &Value) -> (r: String)
    ensures
        r@ == failure_text(json(*payload)),
{
    if let Some(message) = field(payload, "message") {
        if let Some(text) = text_of(message) {
            return text.to_owned();
        }
    }
    "unknown kafka reply error".to_owned()
}

/// The text of a failure is read back from the payload that tells of it.
pub proof fn failure_survives_reply(error: Seq<char>)
    ensures
        failure_text(error_json(error)) == error,
{
}

/// An answer: the id of its request, and what came of it.
#[verifier::ext_equal]
pub struct AnswerView {
    pub correlation_id: Seq<char>,
    pub outcome: OutcomeView,
}

/// The bytes of a record's value; a record without one counts as empty.
pub open spec fn value_of(record: RecordView) -> Seq<u8> {
    match record.value {
        Some(value) => value,
        None => Seq::<u8>::empty(),
    }
}

/// Whether a record is an answer.
pub open spec fn is_answer(record: RecordView) -> bool {
    kind_in(record.headers) == Some(KIND_REPLY@) || kind_in(record.headers) == Some(
        KIND_REPLY_ERROR@,
    )
}

/// The answer that an envelope is: it tells the id of the request, and the outcome
/// according to whether it is an error reply.
pub open spec fn answer_of(envelope: EnvelopeView, failed: bool) -> Option<AnswerView> {
    if envelope.metadata.contains_key(META_CORRELATION_ID@) {
        Some(
            AnswerView {
                correlation_id: envelope.metadata[META_CORRELATION_ID@],
                outcome: if failed {
                    OutcomeView::Error(failure_text(envelope.payload))
                } else {
                    OutcomeView::Value(envelope.payload)
                },
            },
        )
    } else {
        None
    }
}

/// The answer that a record holds: it is of the right kind, and its value is an
/// envelope that is an answer.
pub open spec fn answer_in(record: RecordView) -> Option<AnswerView> {
    if is_answer(record) {
        match envelope_reading(value_of(record)) {
            EnvelopeReading::Envelope(envelope) => answer_of(
                envelope,
                kind_in(record.headers) == Some(KIND_REPLY_ERROR@),
            ),
            EnvelopeReading::Failure(_) => None,
        }
    } else {
        None
    }
}

/// The bytes of a record's value.
pub fn value_bytes(record: &KafkaRecord) -> (r: Vec<u8>)
    ensures
        r@ == value_of(record@),
{
    match &record.value {
        Some(bytes) => vstd::slice::slice_to_vec(bytes.as_slice()),
        None => Vec::new(),
    }
}

/// An answer, read from a record.
pub struct Answer {
    pub correlation_id: String,
    pub outcome: Result<Value, String>,
}

impl View for Answer {
    type V = AnswerView;

    open spec fn view(&self) -> AnswerView {
        AnswerView {
            correlation_id: self.correlation_id@,
            outcome: outcome_view(self.outcome),
        }
    }
}

/// The answer that an envelope is, according to whether it is an error reply.
pub fn answer_from(envelope: MessageEnvelope, failed: bool) -> (r: Option<Answer>)
    ensures
        match r {
            Some(answer) => answer_of(envelope@, failed) == Some(answer@),
            None => answer_of(envelope@, failed) is None,
        },
{
    match metadata_get(&envelope.metadata, META_CORRELATION_ID) {
        Some(correlation_id) => {
            let outcome = if failed {
                Err(error_message(&envelope.payload))
            } else {
                Ok(envelope.payload)
            };
            Some(Answer { correlation_id, outcome })
        },
        None => None,
    }
}

/// Reads the answer that a record holds. One without a value holds none.
pub fn read_answer(record: &KafkaRecord) -> (r: Option<Answer>)
    ensures
        match r {
            Some(answer) => answer_in(record@) == Some(answer@),
            None => answer_in(record@) is None,
        },
        record@.value is None ==> r is None,
{
    let kind = match kind_of(&record.headers) {
        Some(kind) => kind,
        None => {
            return None;
        },
    };
    let failed = same_text(kind.as_str(), KIND_REPLY_ERROR);
    if !failed && !same_text(kind.as_str(), KIND_REPLY) {
        return None;
    }
    match parse_reply(value_bytes(record).as_slice()) {
        Ok(envelope) => answer_from(envelope, failed),
        Err(_) => None,
    }
}

/// The requests that wait for a reply, by their ids. `T` is what is told of the
/// outcome.
#[verifier::reject_recursive_types(T)]
pub struct PendingReplies<T> {
    waiting: StringTable<T>,
}

impl<T> View for PendingReplies<T> {
    type V = Map<Seq<char>, T>;

    closed spec fn view(&self) -> Map<Seq<char>, T> {
        self.waiting@
    }
}

/// Who waits for the answer that a record holds.
pub open spec fn waiter_of<T>(waiting: Map<Seq<char>, T>, record: RecordView) -> Option<T> {
    match answer_in(record) {
        Some(answer) => if waiting.contains_key(answer.correlation_id) {
            Some(waiting[answer.correlation_id])
        } else {
            None
        },
        None => None,
    }
}

/// Who still waits after a record was delivered.
pub open spec fn still_waiting<T>(waiting: Map<Seq<char>, T>, record: RecordView) -> Map<
    Seq<char>,
    T,
> {
    match answer_in(record) {
        Some(answer) => waiting.remove(answer.correlation_id),
        None => waiting,
    }
}

/// An answer is delivered once, and to no one else: who waited for it waits no
/// longer, and all others still wait.
pub proof fn answers_are_delivered_once<T>(
    waiting: Map<Seq<char>, T>,
    record: RecordView,
    other: Seq<char>,
)
    requires
        waiting.contains_key(other),
    ensures
        waiter_of(still_waiting(waiting, record), record) is None,
        answer_in(record) is Some && other == answer_in(record)->0.correlation_id ==> waiter_of(
            waiting,
            record,
        ) == Some(waiting[other]) && !still_waiting(waiting, record).contains_key(other),
        answer_in(record) is None || other != answer_in(record)->0.correlation_id
            ==> still_waiting(waiting, record).contains_key(other) && still_waiting(
            waiting,
            record,
        )[other] == waiting[other],
{
}

/// An answer that comes when its request waits no longer is delivered to no one.
pub proof fn late_answers_are_skipped<T>(
    waiting: Map<Seq<char>, T>,
    correlation_id: Seq<char>,
    record: RecordView,
)
    requires
        answer_in(record) is Some,
        answer_in(record)->0.correlation_id == correlation_id,
    ensures
        waiter_of(waiting.remove(correlation_id), record) is None,
        still_waiting(waiting.remove(correlation_id), record) == waiting.remove(correlation_id),
{
    assert(waiting.remove(correlation_id).remove(correlation_id) =~= waiting.remove(
        correlation_id,
    ));
}

/// An outcome, and whom to tell of it.
pub struct Delivery<T> {
    pub waiter: T,
    pub outcome: Result<Value, String>,
}

/// What the reader of the reply topic does next.
pub enum ReplyStep<T> {
    /// Tell a waiter what came of its request.
    Deliver(Delivery<T>),
    /// Go on: the record answers no request that waits.
    Skip,
    /// Report this, and end.
    Stop(String),
}

impl<T> PendingReplies<T> {
    /// No request waits.
    pub fn new() -> (r: Self)
        ensures
            r@ == Map::<Seq<char>, T>::empty(),
    {
        PendingReplies { waiting: StringTable::new() }
    }

    /// Lets a request wait.
    pub fn register(&mut self, correlation_id: String, waiter: T)
        ensures
            final(self)@ == old(self)@.insert(correlation_id@, waiter),
    {
        self.waiting.insert(correlation_id, waiter);
    }

    /// Lets a request wait no longer.
    pub fn forget(&mut self, correlation_id: &str)
        ensures
            final(self)@ == old(self)@.remove(correlation_id@),
    {
        self.waiting.remove(correlation_id);
    }

    /// Takes the request that a record answers off the list.
    pub fn deliver(&mut self, record: &KafkaRecord) -> (r: Option<Delivery<T>>)
        ensures
            match waiter_of(old(self)@, record@) {
                Some(waiter) => {
                    &&& r is Some
                    &&& r->0.waiter == waiter
                    &&& outcome_view(r->0.outcome) == answer_in(record@)->0.outcome
                },
                None => r is None,
            },
            final(self)@ == still_waiting(old(self)@, record@),
            record@.value is None ==> r is None && final(self)@ == old(self)@,
    {
        match read_answer(record) {
            Some(answer) => match self.waiting.remove(answer.correlation_id.as_str()) {
                Some(waiter) => Some(Delivery { waiter, outcome: answer.outcome }),
                None => None,
            },
            None => None,
        }
    }

    /// What the reader of the reply topic does with what it got: a record, or
    /// the text of an error.
    pub fn reply_step(&mut self, item: Result<KafkaRecord, String>) -> (r: ReplyStep<T>)
        ensures
            match item {
                Ok(record) => {
                    &&& match waiter_of(old(self)@, record@) {
                        Some(waiter) => {
                            &&& r is Deliver
                            &&& r->Deliver_0.waiter == waiter
                            &&& outcome_view(r->Deliver_0.outcome) == answer_in(
                                record@,
                            )->0.outcome
                        },
                        None => r is Skip,
                    }
                    &&& final(self)@ == still_waiting(old(self)@, record@)
                    &&& record@.value is None ==> r is Skip && final(self)@ == old(self)@
                },
                Err(error) => {
                    &&& r is Stop
                    &&& r->Stop_0@ == "kafka reply consumer error: "@ + error@
                    &&& final(self)@ == old(self)@
                },
            },
    {
        match item {
            Ok(record) => match self.deliver(&record) {
                Some(delivery) => ReplyStep::Deliver(delivery),
                None => ReplyStep::Skip,
            },
            Err(error) => ReplyStep::Stop(
                "kafka reply consumer error: ".to_owned().concat(error.as_str()),
            ),
        }
    }
}

/// Why a request or an event failed.
#[derive(Debug, Clone)]
pub enum ClientError {
    /// A request's payload is no JSON; with the cause.
    SerializeMessage(String),
    /// An event's payload is no JSON; with the cause.
    SerializeEvent(String),
    /// An envelope could not be written.
    Encode(WireError),
    /// The reply topic could not be opened.
    Listen(TransportError),
    /// A request could not be produced; with the cause.
    ProduceMessage { topic: String, cause: TransportError },
    /// An event could not be produced; with the cause.
    ProduceEvent { topic: String, cause: TransportError },
    /// No reply came in time.
    TimedOut { timeout: String, pattern: String },
    /// The reader of the reply topic is gone.
    ChannelClosed { pattern: String },
    /// The handler failed.
    Remote { pattern: String, message: String },
    /// The reply is not of the type that was asked for; with the cause.
    Response(String),
}

impl ClientError {
    /// The text of the error, without its cause.
    pub open spec fn text(self) -> Seq<char> {
        match self {
            ClientError::SerializeMessage(_) => "failed to serialize outbound message payload"@,
            ClientError::SerializeEvent(_) => "failed to serialize outbound event payload"@,
            ClientError::Encode(error) => error.text(),
            ClientError::Listen(error) => error.text(),
            ClientError::ProduceMessage { topic, .. } => "failed to produce message to `"@ + topic@
                + "`"@,
            ClientError::ProduceEvent { topic, .. } => "failed to produce event to `"@ + topic@
                + "`"@,
            ClientError::TimedOut { timeout, pattern } => "kafka reply timed out after "@ + timeout@
                + " for pattern `"@ + pattern@ + "`"@,
            ClientError::ChannelClosed { pattern } => "kafka reply channel closed for pattern `"@
                + pattern@ + "`"@,
            ClientError::Remote { pattern, message } => "remote error for `"@ + pattern@ + "`: "@
                + message@,
            ClientError::Response(_) => "failed to deserialize kafka reply response"@,
        }
    }

    /// What failed, in words.
    pub fn message(&self) -> (r: String)
        ensures
            r@ == self.text(),
    {
        match self {
            ClientError::SerializeMessage(_) => "failed to serialize outbound message payload".to_owned(),
            ClientError::SerializeEvent(_) => "failed to serialize outbound event payload".to_owned(),
            ClientError::Encode(error) => error.message(),
            ClientError::Listen(error) => error.message(),
            ClientError::ProduceMessage { topic, .. } => "failed to produce message to `".to_owned().concat(
                topic.as_str(),
            ).concat("`"),
            ClientError::ProduceEvent { topic, .. } => "failed to produce event to `".to_owned().concat(
                topic.as_str(),
            ).concat("`"),
            ClientError::TimedOut { timeout, pattern } => "kafka reply timed out after ".to_owned().concat(
                timeout.as_str(),
            ).concat(" for pattern `").concat(pattern.as_str()).concat("`"),
            ClientError::ChannelClosed { pattern } => "kafka reply channel closed for pattern `".to_owned().concat(
                pattern.as_str(),
            ).concat("`"),
            ClientError::Remote { pattern, message } => "remote error for `".to_owned().concat(
                pattern.as_str(),
            ).concat("`: ").concat(message.as_str()),
            ClientError::Response(_) => "failed to deserialize kafka reply response".to_owned(),
        }
    }
}

/// A record, and where to produce it.
#[derive(Debug)]
pub struct Outgoing {
    pub topic: String,
    pub partition: i32,
    pub record: KafkaRecord,
}

/// What the wait for a reply ended with.
#[derive(Debug)]
pub enum ReplyWait {
    /// No reply came in time.
    TimedOut,
    /// The reader of the reply topic is gone.
    ChannelClosed,
    /// An answer came.
    Answered(Result<Value, String>),
}

/// A request: where it goes, and what goes with it.
#[derive(Debug)]
pub struct SendCall {
    pub pattern: String,
    pub topic: String,
    pub partition: i32,
    pub timeout: Duration,
    pub correlation_id: String,
    pub reply_topic: String,
    pub metadata: TransportMetadata,
}

impl SendCall {
    /// The envelope of the request.
    pub open spec fn envelope(self, payload: Json) -> EnvelopeView {
        EnvelopeView { pattern: self.pattern@, payload, metadata: self.metadata@ }
    }

    /// The record of the request.
    pub open spec fn record(self, payload: Json) -> RecordView {
        record_of(KIND_MESSAGE@, json_text(envelope_json(self.envelope(payload))), None)
    }

    /// Whether a task reads the replies: partition 0 of the reply topic, from the
    /// earliest record on.
    pub open spec fn reads_replies(self, task: ConsumeTask) -> bool {
        &&& task.topic@ == self.reply_topic@
        &&& task.partition == 0
        &&& task.start == StartOffset::Earliest
        &&& task.max_wait_ms == 500
    }

    /// Whether an error tells what a wait ended with.
    pub open spec fn tells_end(self, wait: ReplyWait, error: ClientError) -> bool {
        match wait {
            ReplyWait::TimedOut => {
                &&& error is TimedOut
                &&& error->TimedOut_timeout@ == duration_debug(duration_nanos(self.timeout))
                &&& error->TimedOut_pattern@ == self.pattern@
            },
            ReplyWait::ChannelClosed => {
                &&& error is ChannelClosed
                &&& error->ChannelClosed_pattern@ == self.pattern@
            },
            ReplyWait::Answered(Err(message)) => {
                &&& error is Remote
                &&& error->Remote_pattern@ == self.pattern@
                &&& error->Remote_message@ == message@
            },
            ReplyWait::Answered(Ok(_)) => false,
        }
    }

    /// The task that has to read replies before the request is produced, where none
    /// runs yet: it reads partition 0 of the reply topic, from the earliest record on.
    pub fn listen(&self, running: bool) -> (r: Option<ConsumeTask>)
        ensures
            match r {
                Some(task) => {
                    &&& !running
                    &&& self.reads_replies(task)
                    &&& task.topic@ == self.reply_topic@
                    &&& task.partition == 0
                    &&& task.start == StartOffset::Earliest
                    &&& task.max_wait_ms == 500
                },
                None => running,
            },
    {
        if running {
            None
        } else {
            Some(
                ConsumeTask {
                    topic: self.reply_topic.clone(),
                    partition: 0,
                    start: StartOffset::Earliest,
                    max_wait_ms: 500,
                },
            )
        }
    }

    /// The handle of the reply topic, once it was to be opened. Where it was not, the
    /// request ends, and is left on the list of those that wait.
    pub fn listening<P>(&self, opened: Result<P, TransportError>) -> (r: Result<P, ClientError>)
        ensures
            match opened {
                Ok(handle) => r is Ok && r->Ok_0 == handle,
                Err(error) => r is Err && r->Err_0 == ClientError::Listen(error),
            },
    {
        match opened {
            Ok(handle) => Ok(handle),
            Err(error) => Err(ClientError::Listen(error)),
        }
    }

    /// The record of the request, given its payload or why there is none.
    pub fn request(&self, payload: Result<Value, String>) -> (r: Result<Outgoing, ClientError>)
        ensures
            match payload {
                Ok(value) => {
                    &&& r is Ok
                    &&& r->Ok_0.topic@ == self.topic@
                    &&& r->Ok_0.partition == self.partition
                    &&& r->Ok_0.record@ == self.record(json(value))
                    &&& r->Ok_0.record@ == record_of(
                        KIND_MESSAGE@,
                        json_text(
                            envelope_json(
                                EnvelopeView {
                                    pattern: self.pattern@,
                                    payload: json(value),
                                    metadata: self.metadata@,
                                },
                            ),
                        ),
                        None,
                    )
                    &&& told_as_now(r->Ok_0.record.timestamp)
                    &&& is_portable(self.envelope(json(value))) ==> envelope_reading(
                        value_of(r->Ok_0.record@),
                    ) == EnvelopeReading::Envelope(self.envelope(json(value)))
                },
                Err(cause) => r is Err && r->Err_0 == ClientError::SerializeMessage(cause),
            },
    {
        let value = match payload {
            Ok(value) => value,
            Err(cause) => {
                return Err(ClientError::SerializeMessage(cause));
            },
        };
        let envelope = MessageEnvelope {
            pattern: self.pattern.clone(),
            payload: value,
            metadata: self.metadata.clone(),
        };
        match encode_message(&envelope) {
            Ok(bytes) => Ok(
                Outgoing {
                    topic: self.topic.clone(),
                    partition: self.partition,
                    record: build_record(KIND_MESSAGE, bytes, None),
                },
            ),
            Err(error) => Err(ClientError::Encode(error)),
        }
    }

    /// How long to wait for the reply, once the request was to be produced. Where
    /// it was not, it is left on the list of those that wait.
    pub fn produced(&self, outcome: Result<(), TransportError>) -> (r: Result<
        Duration,
        ClientError,
    >)
        ensures
            match outcome {
                Ok(_) => r is Ok && r->Ok_0 == self.timeout,
                Err(cause) => {
                    &&& r is Err
                    &&& r->Err_0 is ProduceMessage
                    &&& r->Err_0->ProduceMessage_topic@ == self.topic@
                    &&& r->Err_0->ProduceMessage_cause == cause
                },
            },
    {
        match outcome {
            Ok(_) => Ok(self.timeout),
            Err(cause) => Err(ClientError::ProduceMessage { topic: self.topic.clone(), cause }),
        }
    }

    /// Takes the request off the list of those that wait, once the wait is over,
    /// and tells what the caller is told.
    pub fn finish<T>(&self, pending: &mut PendingReplies<T>, wait: ReplyWait) -> (r: Result<
        Value,
        ClientError,
    >)
        ensures
            final(pending)@ == old(pending)@.remove(self.correlation_id@),
            match wait {
                ReplyWait::Answered(Ok(value)) => r is Ok && r->Ok_0 == value,
                _ => r is Err && self.tells_end(wait, r->Err_0),
            },
    {
        pending.forget(self.correlation_id.as_str());
        match wait {
            ReplyWait::TimedOut => Err(
                ClientError::TimedOut {
                    timeout: duration_text(&self.timeout),
                    pattern: self.pattern.clone(),
                },
            ),
            ReplyWait::ChannelClosed => Err(
                ClientError::ChannelClosed { pattern: self.pattern.clone() },
            ),
            ReplyWait::Answered(Err(message)) => Err(
                ClientError::Remote { pattern: self.pattern.clone(), message },
            ),
            ReplyWait::Answered(Ok(value)) => Ok(value),
        }
    }

    /// The response of the type that the caller asked for, given what the answer
    /// was turned into or why it could not be.
    pub fn response<R>(&self, converted: Result<R, String>) -> (r: Result<R, ClientError>)
        ensures
            match converted {
                Ok(response) => r is Ok && r->Ok_0 == response,
                Err(cause) => r is Err && r->Err_0 == ClientError::Response(cause),
            },
    {
        match converted {
            Ok(response) => Ok(response),
            Err(cause) => Err(ClientError::Response(cause)),
        }
    }
}

/// How far a request has got.
pub enum SendState {
    /// The replies are not read yet. The payload, or why there is none, is at hand.
    Listen { payload: Result<Value, String> },
    /// The record is to be produced.
    Produce { record: RecordView },
    /// The reply is awaited.
    Wait,
    /// The answer is there.
    Done { value: Value },
}

/// A request on its way.
pub struct SendView {
    pub call: SendCall,
    pub state: SendState,
}

impl SendView {
    /// A request that has done nothing yet: it needs a reader of replies where none
    /// runs.
    pub open spec fn fresh(call: SendCall, running: bool, payload: Value) -> Self {
        SendView {
            call,
            state: if running {
                SendState::Produce { record: call.record(json(payload)) }
            } else {
                SendState::Listen { payload: Ok(payload) }
            },
        }
    }

    /// The request once what comes next has succeeded. The wait succeeds with an
    /// answer.
    pub open spec fn advanced(self, answer: Value) -> Self {
        SendView {
            call: self.call,
            state: match self.state {
                SendState::Listen { payload: Ok(payload) } => SendState::Produce {
                    record: self.call.record(json(payload)),
                },
                SendState::Produce { .. } => SendState::Wait,
                SendState::Wait => SendState::Done { value: answer },
                _ => self.state,
            },
        }
    }

    /// The request after so many successes.
    pub open spec fn after(
        call: SendCall,
        running: bool,
        payload: Value,
        answer: Value,
        successes: nat,
    ) -> Self
        decreases successes,
    {
        if successes == 0 {
            SendView::fresh(call, running, payload)
        } else {
            SendView::after(call, running, payload, answer, (successes - 1) as nat).advanced(
                answer,
            )
        }
    }

    /// Whether the record that is to be produced is read as the request's envelope,
    /// if that is portable.
    pub open spec fn is_readable(self, payload: Json) -> bool {
        match self.state {
            SendState::Produce { record } => is_portable(self.call.envelope(payload))
                ==> envelope_reading(value_of(record)) == EnvelopeReading::Envelope(
                self.call.envelope(payload),
            ),
            _ => true,
        }
    }
}

/// A request goes step by step: first replies are read, where no reader runs yet, then
/// its record is produced, then its reply is awaited, and then the answer is there. It
/// ends at the first failure, since a failure leaves no request to go on with.
pub proof fn send_goes_in_order(
    call: SendCall,
    running: bool,
    payload: Value,
    answer: Value,
    successes: nat,
)
    ensures
        ({
            let reached = SendView::after(call, running, payload, answer, successes);
            let done = if running {
                successes + 1
            } else {
                successes
            };
            &&& reached.call == call
            &&& reached.state == if done == 0 {
                SendState::Listen { payload: Ok(payload) }
            } else if done == 1 {
                SendState::Produce { record: call.record(json(payload)) }
            } else if done == 2 {
                SendState::Wait
            } else {
                SendState::Done { value: answer }
            }
        }),
    decreases successes,
{
    if successes > 0 {
        send_goes_in_order(call, running, payload, answer, (successes - 1) as nat);
    }
}

/// What a request does next.
pub enum SendStep<'a> {
    /// Open the partition that a task reads, and run it: it reads the replies.
    Listen(&'a ConsumeTask),
    /// Produce a record.
    Produce(&'a Outgoing),
    /// Wait so long for the reply.
    Wait(Duration),
    /// Nothing: here is the answer.
    Done(&'a Value),
}

/// What came of a step.
#[derive(Debug)]
pub enum SendEvent {
    /// Replies are read now, or a record was produced; or why not.
    Acted(Result<(), TransportError>),
    /// The wait is over.
    Waited(ReplyWait),
}

#[derive(Debug)]
enum Progress {
    Listen { task: ConsumeTask, payload: Result<Value, String> },
    Produce { request: Outgoing },
    Wait,
    Done { value: Value },
}

/// A request on its way.
#[derive(Debug)]
pub struct SendRun {
    call: SendCall,
    progress: Progress,
}

impl View for SendRun {
    type V = SendView;

    closed spec fn view(&self) -> SendView {
        SendView {
            call: self.call,
            state: match self.progress {
                Progress::Listen { payload, .. } => SendState::Listen { payload },
                Progress::Produce { request } => SendState::Produce { record: request.record@ },
                Progress::Wait => SendState::Wait,
                Progress::Done { value } => SendState::Done { value },
            },
        }
    }
}

impl SendRun {
    #[verifier::type_invariant]
    closed spec fn goes_where_it_should(self) -> bool {
        match self.progress {
            Progress::Listen { task, .. } => self.call.reads_replies(task),
            Progress::Produce { request } => {
                &&& request.topic@ == self.call.topic@
                &&& request.partition == self.call.partition
                &&& told_as_now(request.record.timestamp)
            },
            _ => true,
        }
    }

    /// Starts a request, given whether a reader of replies runs, and its payload or why
    /// there is none. Where replies have to be read first, a payload that is missing
    /// does not count before they are.
    pub fn start(call: SendCall, running: bool, payload: Result<Value, String>) -> (r: Result<
        Self,
        ClientError,
    >)
        ensures
            match payload {
                Ok(value) => {
                    &&& r is Ok
                    &&& r->Ok_0@ == SendView::fresh(call, running, value)
                    &&& r->Ok_0@.is_readable(json(value))
                },
                Err(cause) => if running {
                    r is Err && r->Err_0 == ClientError::SerializeMessage(cause)
                } else {
                    r is Ok && r->Ok_0@ == (SendView { call, state: SendState::Listen { payload } })
                },
            },
    {
        match call.listen(running) {
            Some(task) => Ok(SendRun { call, progress: Progress::Listen { task, payload } }),
            None => match call.request(payload) {
                Ok(request) => Ok(SendRun { call, progress: Progress::Produce { request } }),
                Err(error) => Err(error),
            },
        }
    }

    /// The request.
    pub fn call(&self) -> (r: &SendCall)
        ensures
            *r == self@.call,
    {
        &self.call
    }

    /// What comes next.
    pub fn step(&self) -> (r: SendStep<'_>)
        ensures
            match self@.state {
                SendState::Listen { .. } => {
                    &&& r is Listen
                    &&& self@.call.reads_replies(*r->Listen_0)
                    &&& r->Listen_0.topic@ == self@.call.reply_topic@
                    &&& r->Listen_0.partition == 0
                    &&& r->Listen_0.start == StartOffset::Earliest
                    &&& r->Listen_0.max_wait_ms == 500
                },
                SendState::Produce { record } => {
                    &&& r is Produce
                    &&& r->Produce_0.topic@ == self@.call.topic@
                    &&& r->Produce_0.partition == self@.call.partition
                    &&& r->Produce_0.record@ == record
                    &&& told_as_now(r->Produce_0.record.timestamp)
                },
                SendState::Wait => r == SendStep::Wait(self@.call.timeout),
                SendState::Done { value } => r == SendStep::Done(&value),
            },
    {
        proof {
            use_type_invariant(self);
        }
        match &self.progress {
            Progress::Listen { task, .. } => SendStep::Listen(task),
            Progress::Produce { request } => SendStep::Produce(request),
            Progress::Wait => SendStep::Wait(self.call.timeout),
            Progress::Done { value } => SendStep::Done(value),
        }
    }

    /// The request once a step was to be done: it goes on after a success, and ends
    /// with a failure. It is taken off the list of those that wait only when its wait
    /// is over. What came of another step than the next one changes nothing.
    pub fn advance<T>(self, pending: &mut PendingReplies<T>, event: SendEvent) -> (r: Result<
        Self,
        ClientError,
    >)
        ensures
            match (self@.state, event) {
                (SendState::Listen { payload }, SendEvent::Acted(Ok(_))) => match payload {
                    Ok(value) => {
                        &&& r is Ok
                        &&& forall|answer: Value| r->Ok_0@ == #[trigger] self@.advanced(answer)
                        &&& r->Ok_0@.is_readable(json(value))
                    },
                    Err(cause) => r is Err && r->Err_0 == ClientError::SerializeMessage(cause),
                },
                (SendState::Listen { .. }, SendEvent::Acted(Err(error))) => {
                    &&& r is Err
                    &&& r->Err_0 == ClientError::Listen(error)
                },
                (SendState::Produce { .. }, SendEvent::Acted(Ok(_))) => {
                    &&& r is Ok
                    &&& forall|answer: Value| r->Ok_0@ == #[trigger] self@.advanced(answer)
                },
                (SendState::Produce { .. }, SendEvent::Acted(Err(cause))) => {
                    &&& r is Err
                    &&& r->Err_0 is ProduceMessage
                    &&& r->Err_0->ProduceMessage_topic@ == self@.call.topic@
                    &&& r->Err_0->ProduceMessage_cause == cause
                },
                (SendState::Wait, SendEvent::Waited(ReplyWait::Answered(Ok(value)))) => {
                    &&& r is Ok
                    &&& r->Ok_0@ == self@.advanced(value)
                },
                (SendState::Wait, SendEvent::Waited(wait)) => {
                    &&& r is Err
                    &&& self@.call.tells_end(wait, r->Err_0)
                },
                _ => r is Ok && r->Ok_0@ == self@,
            },
            final(pending)@ == if self@.state is Wait && event is Waited {
                old(pending)@.remove(self@.call.correlation_id@)
            } else {
                old(pending)@
            },
    {
        proof {
            use_type_invariant(&self);
        }
        let SendRun { call, progress } = self;
        match (progress, event) {
            (Progress::Listen { payload, .. }, SendEvent::Acted(outcome)) => match call.listening(
                outcome,
            ) {
                Ok(_) => match call.request(payload) {
                    Ok(request) => Ok(SendRun { call, progress: Progress::Produce { request } }),
                    Err(error) => Err(error),
                },
                Err(error) => Err(error),
            },
            (Progress::Produce { .. }, SendEvent::Acted(outcome)) => match call.produced(outcome) {
                Ok(_) => Ok(SendRun { call, progress: Progress::Wait }),
                Err(error) => Err(error),
            },
            (Progress::Wait, SendEvent::Waited(wait)) => match call.finish(pending, wait) {
                Ok(value) => Ok(SendRun { call, progress: Progress::Done { value } }),
                Err(error) => Err(error),
            },
            (progress, _) => Ok(SendRun { call, progress }),
        }
    }
}

/// What a client is made of.
#[verifier::ext_equal]
#[verifier::reject_recursive_types(T)]
pub struct ClientView<T> {
    pub config: KafkaConfig,
    pub transport: T,
    pub default_metadata: Map<Seq<char>, Seq<char>>,
    pub reply_topic: Seq<char>,
}

/// A client that sends requests and events over a transport `T`.
#[verifier::reject_recursive_types(T)]
#[derive(Debug)]
pub struct KafkaMicroserviceClient<T> {
    config: KafkaConfig,
    transport: T,
    default_metadata: TransportMetadata,
    reply_topic: String,
}

impl<T> View for KafkaMicroserviceClient<T> {
    type V = ClientView<T>;

    closed spec fn view(&self) -> ClientView<T> {
        ClientView {
            config: self.config,
            transport: self.transport,
            default_metadata: self.default_metadata@,
            reply_topic: self.reply_topic@,
        }
    }
}

impl<T: Clone> Clone for KafkaMicroserviceClient<T> {
    /// A clone shares the reply topic, and sends to the same topics with the same
    /// metadata.
    fn clone(&self) -> (r: Self)
        ensures
            r@.config.brokers@ == self@.config.brokers@,
            r@.config == (KafkaConfig { brokers: r@.config.brokers, ..self@.config }),
            cloned(self@.transport, r@.transport),
            r@.default_metadata == self@.default_metadata,
            r@.reply_topic == self@.reply_topic,
    {
        KafkaMicroserviceClient {
            config: self.config.clone(),
            transport: self.transport.clone(),
            default_metadata: self.default_metadata.clone(),
            reply_topic: self.reply_topic.clone(),
        }
    }
}

/// Whether a topic is the reply topic of the client with a number: the prefix,
/// and then an id made of the clock's time and the number.
pub open spec fn is_reply_topic(topic: Seq<char>, prefix: Seq<char>, number: nat) -> bool {
    exists|suffix: Seq<char>|
        topic == topic_of(prefix, suffix) && #[trigger] clock_stamped(suffix, number)
}

impl<T> KafkaMicroserviceClient<T> {
    /// A client whose reply topic ends in a suffix of its own.
    pub fn new(config: KafkaConfig, transport: T, counter: &mut u64) -> (r: Self)
        ensures
            r@.config == config,
            r@.transport == transport,
            r@.default_metadata == Map::<Seq<char>, Seq<char>>::empty(),
            is_reply_topic(r@.reply_topic, config.reply_topic_prefix@, *old(counter) as nat),
            *final(counter) == if *old(counter) == u64::MAX {
                0
            } else {
                *old(counter) + 1
            },
    {
        let suffix = unique_suffix(counter);
        KafkaMicroserviceClient::with_suffix(config, transport, suffix.as_str())
    }

    /// A client whose reply topic ends in the given suffix.
    pub fn with_suffix(config: KafkaConfig, transport: T, suffix: &str) -> (r: Self)
        ensures
            r@ == (ClientView {
                config,
                transport,
                default_metadata: Map::<Seq<char>, Seq<char>>::empty(),
                reply_topic: topic_of(config.reply_topic_prefix@, suffix@),
            }),
            r@.reply_topic == config.reply_topic_prefix@ + suffix@,
    {
        let reply_topic = config.reply_topic_prefix.clone().concat(suffix);
        KafkaMicroserviceClient {
            config,
            transport,
            default_metadata: TransportMetadata::default(),
            reply_topic,
        }
    }

    /// The client, with metadata that goes with each request and event.
    pub fn with_default_metadata(self, metadata: TransportMetadata) -> (r: Self)
        ensures
            r@ == (ClientView { default_metadata: metadata@, ..self@ }),
    {
        KafkaMicroserviceClient { default_metadata: metadata, ..self }
    }

    /// The transport.
    pub fn transport(&self) -> (r: &T)
        ensures
            *r == self@.transport,
    {
        &self.transport
    }

    /// The client's reply topic.
    pub fn reply_topic(&self) -> (r: &str)
        ensures
            r@ == self@.reply_topic,
    {
        self.reply_topic.as_str()
    }

    /// Starts a request under the given id, and puts it on the list of those that
    /// wait.
    pub fn send<W>(
        &self,
        pattern: String,
        correlation_id: String,
        pending: &mut PendingReplies<W>,
        waiter: W,
    ) -> (r: SendCall)
        ensures
            final(pending)@ == old(pending)@.insert(correlation_id@, waiter),
            r.pattern == pattern,
            r.topic@ == topic_of(self@.config.topic_prefix@, pattern@),
            r.topic@ == self@.config.topic_prefix@ + pattern@,
            r.partition == self@.config.default_partition,
            r.timeout == self@.config.request_timeout,
            r.correlation_id == correlation_id,
            r.reply_topic@ == self@.reply_topic,
            r.metadata@ == reply_entries(
                self@.default_metadata,
                self@.reply_topic,
                correlation_id@,
            ),
    {
        pending.register(correlation_id.clone(), waiter);
        let topic = self.config.topic_for(pattern.as_str());
        let metadata = with_reply_meta(
            self.default_metadata.clone(),
            self.reply_topic.as_str(),
            correlation_id.as_str(),
        );
        SendCall {
            pattern,
            topic,
            partition: self.config.default_partition,
            timeout: self.config.request_timeout,
            correlation_id,
            reply_topic: self.reply_topic.clone(),
            metadata,
        }
    }

    /// The record of an event, given its payload or why there is none.
    pub fn emit(&self, pattern: String, payload: Result<Value, String>) -> (r: Result<
        Outgoing,
        ClientError,
    >)
        ensures
            match payload {
                Ok(value) => {
                    let envelope = EnvelopeView {
                        pattern: pattern@,
                        payload: json(value),
                        metadata: self@.default_metadata,
                    };
                    &&& r is Ok
                    &&& r->Ok_0.topic@ == topic_of(self@.config.topic_prefix@, pattern@)
                    &&& r->Ok_0.topic@ == self@.config.topic_prefix@ + pattern@
                    &&& r->Ok_0.partition == self@.config.default_partition
                    &&& r->Ok_0.record@ == record_of(
                        KIND_EVENT@,
                        json_text(envelope_json(envelope)),
                        None,
                    )
                    &&& told_as_now(r->Ok_0.record.timestamp)
                    &&& is_portable(envelope) ==> envelope_reading(value_of(r->Ok_0.record@))
                        == EnvelopeReading::Envelope(envelope)
                },
                Err(cause) => r is Err && r->Err_0 == ClientError::SerializeEvent(cause),
            },
    {
        let topic = self.config.topic_for(pattern.as_str());
        let value = match payload {
            Ok(value) => value,
            Err(cause) => {
                return Err(ClientError::SerializeEvent(cause));
            },
        };
        let envelope = EventEnvelope {
            pattern,
            payload: value,
            metadata: self.default_metadata.clone(),
        };
        match encode_event(&envelope) {
            Ok(bytes) => Ok(
                Outgoing {
                    topic,
                    partition: self.config.default_partition,
                    record: build_record(KIND_EVENT, bytes, None),
                },
            ),
            Err(error) => Err(ClientError::Encode(error)),
        }
    }
}

/// What came of an event, once its record was to be produced to a topic.
pub fn finish_emit(topic: String, outcome: Result<(), TransportError>) -> (r: Result<(), ClientError>)
    ensures
        match outcome {
            Ok(_) => r is Ok,
            Err(cause) => r is Err && r->Err_0 == (ClientError::ProduceEvent { topic, cause }),
        },
{
    match outcome {
        Ok(_) => Ok(()),
        Err(cause) => Err(ClientError::ProduceEvent { topic, cause }),
    }
}

/// Two requests of a client, or of its clones, are told apart: their ids differ, each
/// carries its own id and the client's reply topic, whatever the default metadata has
/// under the reserved keys, and every other entry is that of the default metadata.
pub proof fn requests_are_told_apart(
    default_metadata: Map<Seq<char>, Seq<char>>,
    reply_topic: Seq<char>,
    left: Seq<char>,
    a: nat,
    right: Seq<char>,
    b: nat,
)
    requires
        clock_stamped(left, a),
        clock_stamped(right, b),
        a != b,
    ensures
        left != right,
        ({
            let one = reply_entries(default_metadata, reply_topic, left);
            let other = reply_entries(default_metadata, reply_topic, right);
            &&& one[META_CORRELATION_ID@] == left
            &&& other[META_CORRELATION_ID@] == right
            &&& one[META_REPLY_TOPIC@] == reply_topic
            &&& other[META_REPLY_TOPIC@] == reply_topic
            &&& user_entries(one) == user_entries(default_metadata)
            &&& user_entries(other) == user_entries(default_metadata)
        }),
{
    clock_stamped_ids_carry_numbers(left, a);
    clock_stamped_ids_carry_numbers(right, b);
    ids_of_different_numbers_differ(left, a, right, b);
    reply_address_is_read_back(default_metadata, reply_topic, left);
    reply_address_is_read_back(default_metadata, reply_topic, right);
    reserved_keys_are_stripped(default_metadata, reply_topic, left);
    reserved_keys_are_stripped(default_metadata, reply_topic, right);
}

/// Clients with different numbers have different reply topics, if their prefix is
/// the same.
pub proof fn reply_topics_are_unique(
    prefix: Seq<char>,
    left: Seq<char>,
    a: nat,
    right: Seq<char>,
    b: nat,
)
    requires
        is_reply_topic(left, prefix, a),
        is_reply_topic(right, prefix, b),
        a != b,
    ensures
        left != right,
{
    let s = choose|suffix: Seq<char>|
        left == topic_of(prefix, suffix) && #[trigger] clock_stamped(suffix, a);
    let t = choose|suffix: Seq<char>|
        right == topic_of(prefix, suffix) && #[trigger] clock_stamped(suffix, b);
    clock_stamped_ids_carry_numbers(s, a);
    clock_stamped_ids_carry_numbers(t, b);
    ids_of_different_numbers_differ(s, a, t, b);
    crate::config::topics_tell_patterns_apart(prefix, s, t);
}

/// An outcome is the document of its value, or the text of its error.
pub proof fn outcomes_say_what_they_hold(value: Value, error: String)
    ensures
        outcome_view(Ok(value)) == OutcomeView::Value(json(value)),
        outcome_view(Err(error)) == OutcomeView::Error(error@),
{
}

/// A failure's text is the text field `message` of an object; any other payload tells of
/// an unknown failure.
pub proof fn failure_is_read_from_message(payload: Json)
    ensures
        payload matches Json::Object(fields) ==> (fields.contains_key("message"@) ==> (
        fields["message"@] matches Json::Text(text) ==> failure_text(payload) == text)),
        payload matches Json::Object(fields) ==> (!fields.contains_key("message"@) || !(
        fields["message"@] is Text) ==> failure_text(payload) == "unknown kafka reply error"@),
        !(payload is Object) ==> failure_text(payload) == "unknown kafka reply error"@,
{
}

/// The value of a record is its bytes, and none where there is no value.
pub proof fn missing_value_is_empty(record: RecordView)
    ensures
        record.value matches Some(bytes) ==> value_of(record) == bytes,
        record.value is None ==> value_of(record).len() == 0,
{
}

/// An answer is read from a record of a kind `reply` or `reply-error` whose envelope
/// carries an id: it answers the request with that id, with the payload as it is or with
/// the failure that it tells of. Nothing else is an answer.
pub proof fn answer_is_read_from_reply(record: RecordView, envelope: EnvelopeView)
    requires
        envelope_reading(value_of(record)) == EnvelopeReading::Envelope(envelope),
    ensures
        kind_in(record.headers) == Some("reply"@) && envelope.metadata.contains_key(
            "nestforge.correlation_id"@,
        ) ==> answer_in(record) is Some && answer_in(record)->0.correlation_id
            == envelope.metadata["nestforge.correlation_id"@] && answer_in(record)->0.outcome
            == OutcomeView::Value(envelope.payload),
        kind_in(record.headers) == Some("reply-error"@) && envelope.metadata.contains_key(
            "nestforge.correlation_id"@,
        ) ==> answer_in(record) is Some && answer_in(record)->0.correlation_id
            == envelope.metadata["nestforge.correlation_id"@] && answer_in(record)->0.outcome
            == OutcomeView::Error(failure_text(envelope.payload)),
        !envelope.metadata.contains_key("nestforge.correlation_id"@) ==> answer_in(record) is None,
        kind_in(record.headers) != Some("reply"@) && kind_in(record.headers) != Some(
            "reply-error"@,
        ) ==> answer_in(record) is None,
{
    crate::consumer::kinds_differ();
}

/// A record whose value is no envelope is no answer.
pub proof fn unreadable_record_is_no_answer(record: RecordView)
    requires
        envelope_reading(value_of(record)) is Failure,
    ensures
        answer_in(record) is None,
{
}

/// The outcome that an envelope tells, by whether it is an error reply.
pub proof fn answer_of_envelope(envelope: EnvelopeView, failed: bool)
    ensures
        answer_of(envelope, failed) is Some <==> envelope.metadata.contains_key(
            "nestforge.correlation_id"@,
        ),
        answer_of(envelope, failed) matches Some(answer) ==> answer.correlation_id
            == envelope.metadata["nestforge.correlation_id"@],
        answer_of(envelope, false) matches Some(answer) ==> answer.outcome == OutcomeView::Value(
            envelope.payload,
        ),
        answer_of(envelope, true) matches Some(answer) ==> answer.outcome == OutcomeView::Error(
            failure_text(envelope.payload),
        ),
{
}

/// An answer says its id and its outcome.
pub proof fn answer_says_its_fields(answer: Answer)
    ensures
        answer@.correlation_id == answer.correlation_id@,
        answer@.outcome == outcome_view(answer.outcome),
{
}

/// An answer goes to the one who waits under its id, and to no one where none does; a
/// record without an answer goes to no one and takes no one off the list.
pub proof fn answers_go_by_id<T>(waiting: Map<Seq<char>, T>, record: RecordView)
    ensures
        answer_in(record) matches Some(answer) ==> (waiting.contains_key(answer.correlation_id)
            ==> waiter_of(waiting, record) == Some(waiting[answer.correlation_id])),
        answer_in(record) matches Some(answer) ==> (!waiting.contains_key(answer.correlation_id)
            ==> waiter_of(waiting, record) is None),
        answer_in(record) matches Some(answer) ==> still_waiting(waiting, record) == waiting.remove(
            answer.correlation_id,
        ),
        answer_in(record) is None ==> waiter_of(waiting, record) is None && still_waiting(
            waiting,
            record,
        ) == waiting,
{
}

/// The envelope of a request holds the caller's payload and pattern as they are, and the
/// metadata of the call.
pub proof fn request_holds_the_payload(call: SendCall, payload: Json)
    ensures
        call.envelope(payload).payload == payload,
        call.envelope(payload).pattern == call.pattern@,
        call.envelope(payload).metadata == call.metadata@,
{
}

/// Requests with different payloads have different envelopes, and so different documents.
pub proof fn requests_tell_payloads_apart(call: SendCall, a: Json, b: Json)
    requires
        envelope_json(call.envelope(a)) == envelope_json(call.envelope(b)),
    ensures
        a == b,
{
    document_has_the_envelopes_fields(call.envelope(a));
    document_has_the_envelopes_fields(call.envelope(b));
}

/// The record of a request is of kind `message`, without a key, and its value is the
/// document with the pattern, the payload and the metadata of the call.
pub proof fn request_record_is_a_message(call: SendCall, payload: Json) -> (document: Json)
    ensures
        call.record(payload).key is None,
        call.record(payload).headers.dom() == set!["nestforge-kind"@],
        call.record(payload).headers["nestforge-kind"@] == encode_utf8("message"@),
        kind_in(call.record(payload).headers) == Some("message"@),
        call.record(payload).value == Some(json_text(document)),
        envelope_in(document) == Some(
            EnvelopeView { pattern: call.pattern@, payload, metadata: call.metadata@ },
        ),
        document is Object,
        document->Object_0["payload"@] == payload,
        document->Object_0["pattern"@] == Json::Text(call.pattern@),
{
    record_holds_what_it_is_made_of(
        KIND_MESSAGE@,
        json_text(envelope_json(call.envelope(payload))),
        None,
    );
    kind_survives_headers("message"@);
    envelope_survives_document(call.envelope(payload));
    document_has_the_envelopes_fields(call.envelope(payload));
    envelope_json(call.envelope(payload))
}

/// A task reads replies exactly if it reads partition 0 of the reply topic from the
/// earliest record on, whatever the partition of the request is.
pub proof fn replies_are_read_from_the_start(call: SendCall, task: ConsumeTask)
    ensures
        call.reads_replies(task) <==> task.topic@ == call.reply_topic@ && task.partition == 0
            && task.start == StartOffset::Earliest && task.max_wait_ms == 500,
{
}

/// What a caller is told of a wait without an answer.
pub proof fn ends_in_words(call: SendCall, error: ClientError, message: String)
    ensures
        call.tells_end(ReplyWait::TimedOut, error) ==> error is TimedOut && error.text() == "kafka reply timed out after "@
            + duration_debug(duration_nanos(call.timeout)) + " for pattern `"@ + call.pattern@ + "`"@,
        call.tells_end(ReplyWait::ChannelClosed, error) ==> error is ChannelClosed && error.text()
            == "kafka reply channel closed for pattern `"@ + call.pattern@ + "`"@,
        call.tells_end(ReplyWait::Answered(Err(message)), error) ==> error is Remote && error.text()
            == "remote error for `"@ + call.pattern@ + "`: "@ + message@,
        forall|value: Value| !#[trigger] call.tells_end(ReplyWait::Answered(Ok(value)), error),
{
}

/// The texts of client errors.
pub proof fn client_errors_in_words(
    topic: String,
    pattern: String,
    timeout: String,
    message: String,
    cause: TransportError,
    error: WireError,
)
    ensures
        ClientError::SerializeMessage(message).text()
            == "failed to serialize outbound message payload"@,
        ClientError::SerializeEvent(message).text() == "failed to serialize outbound event payload"@,
        ClientError::Encode(error).text() == error.text(),
        ClientError::Listen(cause).text() == cause.text(),
        (ClientError::ProduceMessage { topic, cause }).text() == "failed to produce message to `"@
            + topic@ + "`"@,
        (ClientError::ProduceEvent { topic, cause }).text() == "failed to produce event to `"@
            + topic@ + "`"@,
        (ClientError::TimedOut { timeout, pattern }).text() == "kafka reply timed out after "@
            + timeout@ + " for pattern `"@ + pattern@ + "`"@,
        (ClientError::ChannelClosed { pattern }).text()
            == "kafka reply channel closed for pattern `"@ + pattern@ + "`"@,
        (ClientError::Remote { pattern, message }).text() == "remote error for `"@ + pattern@
            + "`: "@ + message@,
        ClientError::Response(message).text() == "failed to deserialize kafka reply response"@,
{
}

/// A record that is readable for a payload is read as the request with that payload, if
/// it is plain within 126 levels.
pub proof fn readable_request_is_read(run: SendView, payload: Json, record: RecordView)
    requires
        run.is_readable(payload),
        run.state == (SendState::Produce { record }),
        plain_within(payload, 126),
    ensures
        envelope_reading(value_of(record)) == EnvelopeReading::Envelope(
            EnvelopeView {
                pattern: run.call.pattern@,
                payload,
                metadata: run.call.metadata@,
            },
        ),
{
}

/// The steps of a request, from whatever state: each success leads to the next one, and
/// the request stays the same.
pub proof fn request_advances(run: SendView, payload: Value, answer: Value)
    ensures
        run.advanced(answer).call == run.call,
        run.state == (SendState::Listen { payload: Ok(payload) }) ==> run.advanced(answer).state == (
        SendState::Produce { record: run.call.record(json(payload)) }),
        run.state is Produce ==> run.advanced(answer).state is Wait,
        run.state is Wait ==> run.advanced(answer).state == (SendState::Done { value: answer }),
        run.state is Done ==> run.advanced(answer).state == run.state,
{
}

/// A request needs a reader of replies exactly where none runs, and is then produced.
pub proof fn request_starts_with_its_reader(call: SendCall, payload: Value)
    ensures
        SendView::fresh(call, false, payload).call == call,
        SendView::fresh(call, false, payload).state == (SendState::Listen { payload: Ok(payload) }),
        SendView::fresh(call, true, payload).call == call,
        SendView::fresh(call, true, payload).state == (SendState::Produce {
            record: call.record(json(payload)),
        }),
{
}

/// A client's reply topic is the prefix, a time that the clock told, a dash and the
/// client's number.
pub proof fn reply_topic_is_prefix_and_id(topic: Seq<char>, prefix: Seq<char>, number: nat) -> (nanos:
    nat)
    requires
        is_reply_topic(topic, prefix, number),
    ensures
        told_by_clock(nanos),
        topic == prefix + (decimal(nanos) + "-"@ + decimal(number)),
{
    let suffix = choose|suffix: Seq<char>|
        topic == topic_of(prefix, suffix) && #[trigger] clock_stamped(suffix, number);
    let nanos = clock_time_is_read_from_id(suffix, number);
    crate::config::topic_is_prefix_and_pattern(prefix, suffix);
    assert(topic =~= prefix + suffix) by {
        assert(topic.take(prefix.len() as int) + topic.skip(prefix.len() as int) =~= topic);
    }
    nanos
}

} // verus!

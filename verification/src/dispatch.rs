//! The gRPC channel: requests and events by pattern, with JSON payloads.
//!
//! A [`GrpcDispatchService`] turns what another node sends into envelopes for the
//! local handlers, and a [`GrpcMicroserviceClient`] is the other side of it.

use crate::envelope::{
    table_of_texts, texts, ContextView, EnvelopeView, EventEnvelope, MessageEnvelope,
    MicroserviceContext, TransportMetadata,
};
use crate::json::{is_blank, json, json_reading, json_text, read_value, write_value, Reading};
use crate::table::{collected, collected_keys, collected_value, distinct_keys, in_key_order};
use crate::text::{has_scheme_separator, middle_occurs, occurrence_splits, occurs_in};
use serde_json::Value;
use tonic::codegen::http::uri::InvalidUri;
use tonic::transport::{Channel, Endpoint};
use vstd::prelude::*;

verus! {

/// The name of this transport in a handler's context.
pub const GRPC_TRANSPORT: &'static str = "grpc";

/// The entries of metadata, in key order.
pub fn metadata_to_map(metadata: &TransportMetadata) -> (r: Vec<(String, String)>)
    ensures
        texts(collected(r@)) == metadata@,
        in_key_order(r@),
        distinct_keys(r@),
{
    let entries = metadata.values.entries();
    let mut list: Vec<(String, String)> = Vec::new();
    let mut i: usize = 0;
    while i < entries.len()
        invariant
            i <= entries.len(),
            list@ == entries@.take(i as int),
        decreases entries.len() - i,
    {
        list.push((entries[i].0.clone(), entries[i].1.clone()));
        assert(list@ =~= entries@.take(i + 1));
        i = i + 1;
    }
    assert(list@ =~= entries@);
    list
}

/// The metadata of a list of entries; where a key comes twice, the later entry
/// counts.
pub fn metadata_from_map(values: Vec<(String, String)>) -> (r: TransportMetadata)
    ensures
        r@ == texts(collected(values@)),
{
    TransportMetadata { values: table_of_texts(&values) }
}

/// Whether each entry of one list stands, by its text, in the other.
pub open spec fn covers(entries: Seq<(String, String)>, others: Seq<(String, String)>) -> bool {
    forall|i: int|
        0 <= i < others.len() ==> exists|j: int|
            0 <= j < entries.len() && #[trigger] entries[j].0@ == (#[trigger] others[i]).0@
                && entries[j].1@ == others[i].1@
}

/// Metadata arrives as it was sent, in whatever order its entries come: lists
/// with the same entries, each key once, are the same metadata.
pub proof fn metadata_survives_map(sent: Seq<(String, String)>, received: Seq<(String, String)>)
    requires
        distinct_keys(sent),
        distinct_keys(received),
        covers(sent, received),
        covers(received, sent),
    ensures
        texts(collected(received)) == texts(collected(sent)),
{
    covered_entries_are_collected(sent, received);
    covered_entries_are_collected(received, sent);
    assert(texts(collected(received)) =~= texts(collected(sent)));
}

proof fn covered_entries_are_collected(entries: Seq<(String, String)>, others: Seq<(String, String)>)
    requires
        distinct_keys(entries),
        distinct_keys(others),
        covers(entries, others),
    ensures
        forall|key: Seq<char>| #[trigger]
            texts(collected(others)).contains_key(key) ==> texts(collected(entries)).contains_key(
                key,
            ) && texts(collected(entries))[key] == texts(collected(others))[key],
{
    assert forall|key: Seq<char>| #[trigger] texts(collected(others)).contains_key(key) implies texts(
        collected(entries),
    ).contains_key(key) && texts(collected(entries))[key] == texts(collected(others))[key] by {
        collected_keys(others, key);
        let i = choose|i: int| 0 <= i < others.len() && #[trigger] others[i].0@ == key;
        let j = choose|j: int|
            0 <= j < entries.len() && #[trigger] entries[j].0@ == others[i].0@ && entries[j].1@
                == others[i].1@;
        collected_value(others, i);
        collected_value(entries, j);
    }
}

/// The kinds of failure that a call is answered with.
#[derive(Debug, Clone, Copy, PartialEq, Eq, Structural)]
pub enum GrpcCode {
    InvalidArgument,
    Internal,
}

/// The failure that a call is answered with.
#[derive(Debug, Clone, PartialEq, Eq)]
pub struct GrpcStatus {
    pub code: GrpcCode,
    pub message: String,
}

/// The status of a handler's failure.
pub fn map_dispatch_error(error: String) -> (r: GrpcStatus)
    ensures
        r == (GrpcStatus { code: GrpcCode::Internal, message: error }),
{
    GrpcStatus { code: GrpcCode::Internal, message: error }
}

/// A call that expects a response.
#[derive(Debug, Clone, PartialEq, Eq)]
pub struct InvokeRequest {
    pub pattern: String,
    pub payload: Vec<u8>,
    pub metadata: Vec<(String, String)>,
}

/// The response to a call.
#[derive(Debug, Clone, PartialEq, Eq)]
pub struct InvokeResponse {
    pub payload: Vec<u8>,
}

/// A call that tells of an event.
#[derive(Debug, Clone, PartialEq, Eq)]
pub struct EmitRequest {
    pub pattern: String,
    pub payload: Vec<u8>,
    pub metadata: Vec<(String, String)>,
}

/// The response to a call that tells of an event.
#[derive(Debug, Clone, Copy, PartialEq, Eq)]
pub struct EmitResponse {}

/// The envelope of a call, given the document of its payload.
pub open spec fn call_envelope(
    pattern: Seq<char>,
    payload: crate::json::Json,
    metadata: Seq<(String, String)>,
) -> EnvelopeView {
    EnvelopeView { pattern, payload, metadata: texts(collected(metadata)) }
}

/// The context of a handler of an envelope: it sees all the metadata.
pub open spec fn grpc_context(envelope: EnvelopeView) -> ContextView {
    ContextView {
        transport: GRPC_TRANSPORT@,
        pattern: envelope.pattern,
        metadata: envelope.metadata,
    }
}

/// A client's default metadata reaches the handler: however the entries of a call
/// are ordered when they arrive, the handler's context has that metadata.
pub proof fn default_metadata_reaches_handler(
    default_metadata: Map<Seq<char>, Seq<char>>,
    sent: Seq<(String, String)>,
    received: Seq<(String, String)>,
    pattern: Seq<char>,
    payload: crate::json::Json,
)
    requires
        texts(collected(sent)) == default_metadata,
        distinct_keys(sent),
        distinct_keys(received),
        covers(sent, received),
        covers(received, sent),
    ensures
        grpc_context(call_envelope(pattern, payload, received)).metadata == default_metadata,
        grpc_context(call_envelope(pattern, payload, received)).pattern == pattern,
        grpc_context(call_envelope(pattern, payload, received)).transport == GRPC_TRANSPORT@,
{
    metadata_survives_map(sent, received);
}

/// Whether a status refuses a payload because of a cause.
pub open spec fn refuses_payload(status: GrpcStatus, cause: Seq<char>) -> bool {
    status.code == GrpcCode::InvalidArgument && status.message@ == "invalid JSON payload: "@ + cause
}

/// The payload of a call, or the status that refuses it, given what was read.
pub fn accept_payload(read: Result<Value, String>) -> (r: Result<Value, GrpcStatus>)
    ensures
        match read {
            Ok(value) => r is Ok && r->Ok_0 == value,
            Err(cause) => r is Err && refuses_payload(r->Err_0, cause@),
        },
{
    match read {
        Ok(value) => Ok(value),
        Err(cause) => Err(
            GrpcStatus {
                code: GrpcCode::InvalidArgument,
                message: "invalid JSON payload: ".to_owned().concat(cause.as_str()),
            },
        ),
    }
}

/// What the handler of a call is given: the message and its context.
pub fn accept_message(pattern: String, payload: Value, metadata: Vec<(String, String)>) -> (r: (
    MessageEnvelope,
    MicroserviceContext,
))
    ensures
        r.0@ == call_envelope(pattern@, json(payload), metadata@),
        r.0.pattern == pattern,
        json(r.0.payload) == json(payload),
        r.0.metadata@ == texts(collected(metadata@)),
        r.1@ == grpc_context(call_envelope(pattern@, json(payload), metadata@)),
{
    let metadata = metadata_from_map(metadata);
    let context = MicroserviceContext {
        transport: GRPC_TRANSPORT.to_owned(),
        pattern: pattern.clone(),
        metadata: metadata.clone(),
    };
    (MessageEnvelope { pattern, payload, metadata }, context)
}

/// What the handlers of an event are given: the event and their context.
pub fn accept_event(pattern: String, payload: Value, metadata: Vec<(String, String)>) -> (r: (
    EventEnvelope,
    MicroserviceContext,
))
    ensures
        r.0@ == call_envelope(pattern@, json(payload), metadata@),
        r.0.pattern == pattern,
        json(r.0.payload) == json(payload),
        r.0.metadata@ == texts(collected(metadata@)),
        r.1@ == grpc_context(call_envelope(pattern@, json(payload), metadata@)),
{
    let metadata = metadata_from_map(metadata);
    let context = MicroserviceContext {
        transport: GRPC_TRANSPORT.to_owned(),
        pattern: pattern.clone(),
        metadata: metadata.clone(),
    };
    (EventEnvelope { pattern, payload, metadata }, context)
}

/// The service that takes calls for the local handlers. `C` is the container in
/// which handlers find what they need, `R` the registry of the handlers.
#[derive(Debug)]
pub struct GrpcDispatchService<C, R> {
    pub container: C,
    pub registry: R,
}

impl<C: Clone, R: Clone> Clone for GrpcDispatchService<C, R> {
    fn clone(&self) -> (r: Self)
        ensures
            cloned(self.container, r.container),
            cloned(self.registry, r.registry),
    {
        GrpcDispatchService { container: self.container.clone(), registry: self.registry.clone() }
    }
}

impl<C, R> GrpcDispatchService<C, R> {
    /// A service for the handlers of a registry.
    pub fn new(container: C, registry: R) -> (r: Self)
        ensures
            r == (GrpcDispatchService { container, registry }),
    {
        GrpcDispatchService { container, registry }
    }

    /// The container.
    pub fn container(&self) -> (r: &C)
        ensures
            *r == self.container,
    {
        &self.container
    }

    /// The registry.
    pub fn registry(&self) -> (r: &R)
        ensures
            *r == self.registry,
    {
        &self.registry
    }

    /// What a call's handler is given: the message and its context. A payload
    /// that is no JSON is refused.
    pub fn invoke(&self, request: InvokeRequest) -> (r: Result<
        (MessageEnvelope, MicroserviceContext),
        GrpcStatus,
    >)
        ensures
            match json_reading(request.payload@) {
                Reading::Document(document) => {
                    let envelope = call_envelope(request.pattern@, document, request.metadata@);
                    &&& r is Ok
                    &&& r->Ok_0.0@ == envelope
                    &&& r->Ok_0.1@ == grpc_context(envelope)
                    &&& r->Ok_0.0.pattern == request.pattern
                    &&& json(r->Ok_0.0.payload) == document
                    &&& r->Ok_0.0.metadata@ == texts(collected(request.metadata@))
                },
                Reading::Error(cause) => r is Err && refuses_payload(r->Err_0, cause),
            },
            is_blank(request.payload@) ==> r is Err,
    {
        match accept_payload(read_value(request.payload.as_slice())) {
            Ok(payload) => Ok(accept_message(request.pattern, payload, request.metadata)),
            Err(status) => Err(status),
        }
    }

    /// The response to a call, once it was handled.
    pub fn invoke_response(&self, outcome: Result<Value, String>) -> (r: Result<
        InvokeResponse,
        GrpcStatus,
    >)
        ensures
            match outcome {
                Ok(value) => r is Ok && r->Ok_0.payload@ == json_text(json(value)),
                Err(error) => r is Err && r->Err_0 == (GrpcStatus {
                    code: GrpcCode::Internal,
                    message: error,
                }),
            },
            outcome is Ok && crate::json::plain_within(
                json(outcome->Ok_0),
                crate::json::MAX_DEPTH as nat,
            ) ==> json_reading(r->Ok_0.payload@) == Reading::Document(json(outcome->Ok_0)),
    {
        match outcome {
            Ok(value) => match write_value(&value) {
                Ok(payload) => Ok(InvokeResponse { payload }),
                Err(cause) => Err(
                    GrpcStatus {
                        code: GrpcCode::Internal,
                        message: "failed to serialize response: ".to_owned().concat(
                            cause.as_str(),
                        ),
                    },
                ),
            },
            Err(error) => Err(map_dispatch_error(error)),
        }
    }

    /// What an event's handlers are given: the event and their context. A payload
    /// that is no JSON is refused.
    pub fn emit(&self, request: EmitRequest) -> (r: Result<
        (EventEnvelope, MicroserviceContext),
        GrpcStatus,
    >)
        ensures
            match json_reading(request.payload@) {
                Reading::Document(document) => {
                    let envelope = call_envelope(request.pattern@, document, request.metadata@);
                    &&& r is Ok
                    &&& r->Ok_0.0@ == envelope
                    &&& r->Ok_0.1@ == grpc_context(envelope)
                    &&& r->Ok_0.0.pattern == request.pattern
                    &&& json(r->Ok_0.0.payload) == document
                    &&& r->Ok_0.0.metadata@ == texts(collected(request.metadata@))
                },
                Reading::Error(cause) => r is Err && refuses_payload(r->Err_0, cause),
            },
            is_blank(request.payload@) ==> r is Err,
    {
        match accept_payload(read_value(request.payload.as_slice())) {
            Ok(payload) => Ok(accept_event(request.pattern, payload, request.metadata)),
            Err(status) => Err(status),
        }
    }

    /// The response to a call that told of an event, once it was handled.
    pub fn emit_response(&self, outcome: Result<(), String>) -> (r: Result<EmitResponse, GrpcStatus>)
        ensures
            match outcome {
                Ok(_) => r is Ok,
                Err(error) => r is Err && r->Err_0 == (GrpcStatus {
                    code: GrpcCode::Internal,
                    message: error,
                }),
            },
    {
        match outcome {
            Ok(_) => Ok(EmitResponse {  }),
            Err(error) => Err(map_dispatch_error(error)),
        }
    }
}

/// An address with a scheme: one that has none gets `http`.
pub open spec fn normalized(addr: Seq<char>) -> Seq<char> {
    if occurs_in("://"@, addr) {
        addr
    } else {
        "http://"@ + addr
    }
}

/// Gives an address a scheme, where it has none.
pub fn normalize_addr(addr: String) -> (r: String)
    ensures
        r@ == normalized(addr@),
{
    if has_scheme_separator(addr.as_str()) {
        addr
    } else {
        "http://".to_owned().concat(addr.as_str())
    }
}

/// A normalized address has a scheme, and is not changed again.
pub proof fn normalized_is_stable(addr: Seq<char>)
    ensures
        occurs_in("://"@, normalized(addr)),
        normalized(normalized(addr)) == normalized(addr),
{
    reveal_strlit("://");
    reveal_strlit("http://");
    if !occurs_in("://"@, addr) {
        let whole = normalized(addr);
        let at: int = 4;
        assert(whole.subrange(at, at + "://"@.len()) =~= "://"@);
    }
}

/// `tonic::transport::Endpoint`, of which nothing is claimed but where it comes from.
#[verifier::external_type_specification]
#[verifier::external_body]
pub struct ExEndpoint(tonic::transport::Endpoint);

/// `tonic::transport::Error`, of which nothing is claimed.
#[verifier::external_type_specification]
#[verifier::external_body]
pub struct ExTransportError(tonic::transport::Error);

/// `http::uri::InvalidUri`, of which nothing is claimed.
#[verifier::external_type_specification]
#[verifier::external_body]
pub struct ExInvalidUri(tonic::codegen::http::uri::InvalidUri);

/// What `tonic::transport::Endpoint::from_shared` makes of an address.
pub uninterp spec fn endpoint_of(addr: Seq<char>) -> Result<Endpoint, tonic::transport::Error>;

/// `tonic::transport::Endpoint::from_shared`: whether it succeeds, the endpoint and the
/// error depend on the address alone. Which texts it takes is left to it.
#[verifier::external_body]
pub(crate) fn parse_endpoint(addr: String) -> (r: Result<Endpoint, tonic::transport::Error>)
    ensures
        r == endpoint_of(addr@),
{
    Endpoint::from_shared(addr)
}

/// What `tonic::transport::Channel::from_shared` makes of an address.
pub uninterp spec fn channel_of(addr: Seq<char>) -> Result<Endpoint, InvalidUri>;

/// `tonic::transport::Channel::from_shared`: whether it succeeds, the endpoint and the
/// error depend on the address alone. Which texts it takes is left to it.
#[verifier::external_body]
pub(crate) fn parse_channel(addr: String) -> (r: Result<Endpoint, InvalidUri>)
    ensures
        r == channel_of(addr@),
{
    Channel::from_shared(addr)
}

/// Why a text is no address.
#[derive(Debug)]
pub enum AddressError {
    /// No endpoint can be made of it.
    Endpoint(tonic::transport::Error),
    /// It is no URI.
    Uri(InvalidUri),
}

/// Why a call could not be made, or what came of it.
#[derive(Debug)]
pub enum GrpcClientError {
    /// The address is none; with the cause.
    InvalidAddress { addr: String, cause: AddressError },
    /// There is no connection; with the cause.
    Connect { addr: String, cause: tonic::transport::Error },
    /// A request's payload is no JSON; with the cause.
    SerializeMessage(String),
    /// An event's payload is no JSON; with the cause.
    SerializeEvent(String),
    /// A request failed; with the message of the status.
    Invoke(String),
    /// An event failed; with the message of the status.
    Emit(String),
    /// The response is not of the type that was asked for; with the cause.
    Response(String),
}

impl GrpcClientError {
    /// The text of the error, without its cause.
    pub open spec fn text(self) -> Seq<char> {
        match self {
            GrpcClientError::InvalidAddress { addr, .. } => "invalid gRPC address `"@ + addr@
                + "`"@,
            GrpcClientError::Connect { addr, .. } => "failed to connect gRPC channel to `"@ + addr@
                + "`"@,
            GrpcClientError::SerializeMessage(_) => "failed to serialize outbound message payload"@,
            GrpcClientError::SerializeEvent(_) => "failed to serialize outbound event payload"@,
            GrpcClientError::Invoke(message) => "gRPC invoke failed: "@ + message@,
            GrpcClientError::Emit(message) => "gRPC emit failed: "@ + message@,
            GrpcClientError::Response(_) => "failed to deserialize outbound message response"@,
        }
    }

    /// What failed, in words.
    pub fn message(&self) -> (r: String)
        ensures
            r@ == self.text(),
    {
        match self {
            GrpcClientError::InvalidAddress { addr, .. } => "invalid gRPC address `".to_owned().concat(
                addr.as_str(),
            ).concat("`"),
            GrpcClientError::Connect { addr, .. } => "failed to connect gRPC channel to `".to_owned().concat(
                addr.as_str(),
            ).concat("`"),
            GrpcClientError::SerializeMessage(_) => "failed to serialize outbound message payload".to_owned(),
            GrpcClientError::SerializeEvent(_) => "failed to serialize outbound event payload".to_owned(),
            GrpcClientError::Invoke(message) => "gRPC invoke failed: ".to_owned().concat(
                message.as_str(),
            ),
            GrpcClientError::Emit(message) => "gRPC emit failed: ".to_owned().concat(
                message.as_str(),
            ),
            GrpcClientError::Response(_) => "failed to deserialize outbound message response".to_owned(),
        }
    }
}

/// An address that is ready to be connected to.
pub struct GrpcTarget {
    pub addr: String,
    pub endpoint: Endpoint,
}

/// The target of an address, given the endpoint that was made from it or why there
/// is none.
pub fn target_from(addr: String, endpoint: Result<Endpoint, AddressError>) -> (r: Result<
    GrpcTarget,
    GrpcClientError,
>)
    ensures
        match endpoint {
            Ok(endpoint) => r is Ok && r->Ok_0 == (GrpcTarget { addr, endpoint }),
            Err(cause) => r is Err && r->Err_0 == (GrpcClientError::InvalidAddress { addr, cause }),
        },
{
    match endpoint {
        Ok(endpoint) => Ok(GrpcTarget { addr, endpoint }),
        Err(cause) => Err(GrpcClientError::InvalidAddress { addr, cause }),
    }
}

/// Whether a target was made of an address and its endpoint, or refused for a cause.
pub open spec fn is_target(
    r: Result<GrpcTarget, GrpcClientError>,
    addr: Seq<char>,
    endpoint: Result<Endpoint, AddressError>,
) -> bool {
    match endpoint {
        Ok(endpoint) => r is Ok && r->Ok_0.addr@ == addr && r->Ok_0.endpoint == endpoint,
        Err(cause) => {
            &&& r is Err
            &&& r->Err_0 is InvalidAddress
            &&& r->Err_0->InvalidAddress_addr@ == addr
            &&& r->Err_0->InvalidAddress_cause == cause
        },
    }
}

/// Prepares a connection to an address that is made at once. The address gets a scheme
/// where it has none.
pub fn target(addr: String) -> (r: Result<GrpcTarget, GrpcClientError>)
    ensures
        is_target(
            r,
            normalized(addr@),
            match endpoint_of(normalized(addr@)) {
                Ok(endpoint) => Ok(endpoint),
                Err(error) => Err(AddressError::Endpoint(error)),
            },
        ),
{
    let addr = normalize_addr(addr);
    let endpoint = match parse_endpoint(addr.clone()) {
        Ok(endpoint) => Ok(endpoint),
        Err(error) => Err(AddressError::Endpoint(error)),
    };
    target_from(addr, endpoint)
}

/// Prepares a connection to an address that is made when it is first used. The address
/// gets a scheme where it has none.
pub fn lazy_target(addr: String) -> (r: Result<GrpcTarget, GrpcClientError>)
    ensures
        is_target(
            r,
            normalized(addr@),
            match channel_of(normalized(addr@)) {
                Ok(endpoint) => Ok(endpoint),
                Err(error) => Err(AddressError::Uri(error)),
            },
        ),
{
    let addr = normalize_addr(addr);
    let endpoint = match parse_channel(addr.clone()) {
        Ok(endpoint) => Ok(endpoint),
        Err(error) => Err(AddressError::Uri(error)),
    };
    target_from(addr, endpoint)
}

/// What a client is made of.
#[verifier::ext_equal]
#[verifier::reject_recursive_types(T)]
pub struct GrpcClientView<T> {
    pub addr: Seq<char>,
    pub client: T,
    pub default_metadata: Map<Seq<char>, Seq<char>>,
}

/// A client that calls another node over a channel `T`.
#[verifier::reject_recursive_types(T)]
#[derive(Debug)]
pub struct GrpcMicroserviceClient<T> {
    addr: String,
    client: T,
    default_metadata: TransportMetadata,
}

impl<T> View for GrpcMicroserviceClient<T> {
    type V = GrpcClientView<T>;

    closed spec fn view(&self) -> GrpcClientView<T> {
        GrpcClientView {
            addr: self.addr@,
            client: self.client,
            default_metadata: self.default_metadata@,
        }
    }
}

impl<T: Clone> Clone for GrpcMicroserviceClient<T> {
    /// A clone calls the same address with the same metadata.
    fn clone(&self) -> (r: Self)
        ensures
            r@.addr == self@.addr,
            cloned(self@.client, r@.client),
            r@.default_metadata == self@.default_metadata,
    {
        GrpcMicroserviceClient {
            addr: self.addr.clone(),
            client: self.client.clone(),
            default_metadata: self.default_metadata.clone(),
        }
    }
}

impl<T> GrpcMicroserviceClient<T> {
    /// A client of a target, over the channel that was connected to it, or why there
    /// is none.
    pub fn connect(target: GrpcTarget, channel: Result<T, tonic::transport::Error>) -> (r: Result<
        Self,
        GrpcClientError,
    >)
        ensures
            match channel {
                Ok(client) => r is Ok && r->Ok_0@ == (GrpcClientView {
                    addr: target.addr@,
                    client,
                    default_metadata: Map::<Seq<char>, Seq<char>>::empty(),
                }),
                Err(cause) => {
                    &&& r is Err
                    &&& r->Err_0 is Connect
                    &&& r->Err_0->Connect_addr@ == target.addr@
                    &&& r->Err_0->Connect_cause == cause
                },
            },
    {
        match channel {
            Ok(client) => Ok(GrpcMicroserviceClient::connect_lazy(target, client)),
            Err(cause) => Err(GrpcClientError::Connect { addr: target.addr, cause }),
        }
    }

    /// A client of a target, over a channel that connects when it is first used.
    pub fn connect_lazy(target: GrpcTarget, client: T) -> (r: Self)
        ensures
            r@ == (GrpcClientView {
                addr: target.addr@,
                client,
                default_metadata: Map::<Seq<char>, Seq<char>>::empty(),
            }),
    {
        GrpcMicroserviceClient {
            addr: target.addr,
            client,
            default_metadata: TransportMetadata::default(),
        }
    }

    /// The client, with metadata that goes with each call.
    pub fn with_default_metadata(self, metadata: TransportMetadata) -> (r: Self)
        ensures
            r@ == (GrpcClientView { default_metadata: metadata@, ..self@ }),
    {
        GrpcMicroserviceClient { default_metadata: metadata, ..self }
    }

    /// The address.
    pub fn addr(&self) -> (r: &str)
        ensures
            r@ == self@.addr,
    {
        self.addr.as_str()
    }

    /// The channel.
    pub fn client(&self) -> (r: &T)
        ensures
            *r == self@.client,
    {
        &self.client
    }

    /// The call of a request, given its payload or why there is none.
    pub fn send(&self, pattern: String, payload: Result<Vec<u8>, String>) -> (r: Result<
        InvokeRequest,
        GrpcClientError,
    >)
        ensures
            match payload {
                Ok(bytes) => {
                    &&& r is Ok
                    &&& r->Ok_0.pattern == pattern
                    &&& r->Ok_0.payload == bytes
                    &&& texts(collected(r->Ok_0.metadata@)) == self@.default_metadata
                    &&& distinct_keys(r->Ok_0.metadata@)
                },
                Err(cause) => r is Err && r->Err_0 == GrpcClientError::SerializeMessage(cause),
            },
    {
        match payload {
            Ok(payload) => Ok(
                InvokeRequest { pattern, payload, metadata: metadata_to_map(&self.default_metadata) },
            ),
            Err(cause) => Err(GrpcClientError::SerializeMessage(cause)),
        }
    }

    /// The bytes of a response, or the failure of the call, given what came back:
    /// a response or the message of a status.
    pub fn finish_send(&self, reply: Result<InvokeResponse, String>) -> (r: Result<
        Vec<u8>,
        GrpcClientError,
    >)
        ensures
            match reply {
                Ok(response) => r is Ok && r->Ok_0 == response.payload,
                Err(message) => r is Err && r->Err_0 == GrpcClientError::Invoke(message),
            },
    {
        match reply {
            Ok(response) => Ok(response.payload),
            Err(message) => Err(GrpcClientError::Invoke(message)),
        }
    }

    /// The response of the type that the caller asked for, given what the bytes were
    /// turned into or why they could not be.
    pub fn response<R>(&self, converted: Result<R, String>) -> (r: Result<R, GrpcClientError>)
        ensures
            match converted {
                Ok(response) => r is Ok && r->Ok_0 == response,
                Err(cause) => r is Err && r->Err_0 == GrpcClientError::Response(cause),
            },
    {
        match converted {
            Ok(response) => Ok(response),
            Err(cause) => Err(GrpcClientError::Response(cause)),
        }
    }

    /// The call that tells of an event, given its payload or why there is none.
    pub fn emit(&self, pattern: String, payload: Result<Vec<u8>, String>) -> (r: Result<
        EmitRequest,
        GrpcClientError,
    >)
        ensures
            match payload {
                Ok(bytes) => {
                    &&& r is Ok
                    &&& r->Ok_0.pattern == pattern
                    &&& r->Ok_0.payload == bytes
                    &&& texts(collected(r->Ok_0.metadata@)) == self@.default_metadata
                    &&& distinct_keys(r->Ok_0.metadata@)
                },
                Err(cause) => r is Err && r->Err_0 == GrpcClientError::SerializeEvent(cause),
            },
    {
        match payload {
            Ok(payload) => Ok(
                EmitRequest { pattern, payload, metadata: metadata_to_map(&self.default_metadata) },
            ),
            Err(cause) => Err(GrpcClientError::SerializeEvent(cause)),
        }
    }

    /// What came of telling an event, given what came back: nothing or the
    /// message of a status.
    pub fn finish_emit(&self, reply: Result<EmitResponse, String>) -> (r: Result<
        (),
        GrpcClientError,
    >)
        ensures
            match reply {
                Ok(_) => r is Ok,
                Err(message) => r is Err && r->Err_0 == GrpcClientError::Emit(message),
            },
    {
        match reply {
            Ok(_) => Ok(()),
            Err(message) => Err(GrpcClientError::Emit(message)),
        }
    }
}

/// The envelope of a call holds the document that was read and the pattern as they are,
/// and the metadata of the call's entries.
pub proof fn call_holds_the_payload(
    pattern: Seq<char>,
    payload: crate::json::Json,
    metadata: Seq<(String, String)>,
)
    ensures
        call_envelope(pattern, payload, metadata).payload == payload,
        call_envelope(pattern, payload, metadata).pattern == pattern,
        call_envelope(pattern, payload, metadata).metadata == texts(collected(metadata)),
{
}

/// Of two calls with different payloads, patterns or metadata the handler is given
/// different envelopes.
pub proof fn calls_are_told_apart(
    pattern: Seq<char>,
    payload: crate::json::Json,
    metadata: Seq<(String, String)>,
    other_pattern: Seq<char>,
    other_payload: crate::json::Json,
    other_metadata: Seq<(String, String)>,
)
    requires
        call_envelope(pattern, payload, metadata) == call_envelope(
            other_pattern,
            other_payload,
            other_metadata,
        ),
    ensures
        pattern == other_pattern,
        payload == other_payload,
        texts(collected(metadata)) == texts(collected(other_metadata)),
{
    call_holds_the_payload(pattern, payload, metadata);
    call_holds_the_payload(other_pattern, other_payload, other_metadata);
}

/// The metadata of a call has the value of each entry under its key, if no key comes
/// twice, and nothing else.
pub proof fn call_holds_its_metadata(
    pattern: Seq<char>,
    payload: crate::json::Json,
    metadata: Seq<(String, String)>,
    key: Seq<char>,
)
    requires
        distinct_keys(metadata),
    ensures
        call_envelope(pattern, payload, metadata).metadata.contains_key(key) <==> exists|i: int|
            0 <= i < metadata.len() && #[trigger] metadata[i].0@ == key,
        forall|i: int|
            0 <= i < metadata.len() && #[trigger] metadata[i].0@ == key ==> call_envelope(
                pattern,
                payload,
                metadata,
            ).metadata[key] == metadata[i].1@,
{
    collected_keys(metadata, key);
    assert forall|i: int| 0 <= i < metadata.len() && #[trigger] metadata[i].0@ == key implies call_envelope(
        pattern,
        payload,
        metadata,
    ).metadata[key] == metadata[i].1@ by {
        collected_value(metadata, i);
    }
}

/// A handler's context tells the transport `grpc`, and the pattern and the metadata of the
/// envelope.
pub proof fn grpc_context_is_that_of_the_envelope(envelope: EnvelopeView)
    ensures
        grpc_context(envelope).transport == "grpc"@,
        grpc_context(envelope).pattern == envelope.pattern,
        grpc_context(envelope).metadata == envelope.metadata,
{
}

/// A payload is refused as an invalid argument, with the cause in the message.
pub proof fn refusal_tells_the_cause(status: GrpcStatus, cause: Seq<char>)
    requires
        refuses_payload(status, cause),
    ensures
        status.code == GrpcCode::InvalidArgument,
        status.message@ == "invalid JSON payload: "@ + cause,
{
}

/// An address with a scheme separator anywhere in it stays as it is, and any other gets
/// `http://` before it.
pub proof fn scheme_is_added_where_none_is(addr: Seq<char>)
    ensures
        (exists|before: Seq<char>, after: Seq<char>| addr == #[trigger] (before + "://"@ + after))
            ==> normalized(addr) == addr,
        !(exists|before: Seq<char>, after: Seq<char>|
            addr == #[trigger] (before + "://"@ + after)) ==> normalized(addr) == "http://"@ + addr,
{
    if exists|before: Seq<char>, after: Seq<char>| addr == #[trigger] (before + "://"@ + after) {
        let (before, after) = choose|before: Seq<char>, after: Seq<char>|
            addr == #[trigger] (before + "://"@ + after);
        middle_occurs(before, "://"@, after);
    } else if occurs_in("://"@, addr) {
        let (before, after) = occurrence_splits("://"@, addr);
        assert(addr == before + "://"@ + after);
    }
}

/// A target has the address and the endpoint that it is made of, and a refusal the address
/// and the cause.
pub proof fn target_is_what_it_is_made_of(
    target: Result<GrpcTarget, GrpcClientError>,
    addr: Seq<char>,
    endpoint: Result<Endpoint, AddressError>,
)
    requires
        is_target(target, addr, endpoint),
    ensures
        target is Ok <==> endpoint is Ok,
        target matches Ok(made) ==> made.addr@ == addr && made.endpoint == endpoint->Ok_0,
        target matches Err(error) ==> error is InvalidAddress && error->InvalidAddress_addr@ == addr
            && error->InvalidAddress_cause == endpoint->Err_0,
{
}

/// Lists of entries cover each other exactly if each entry of one stands in the other.
pub proof fn covered_entry_is_found(
    entries: Seq<(String, String)>,
    others: Seq<(String, String)>,
    i: int,
) -> (j: int)
    requires
        covers(entries, others),
        0 <= i < others.len(),
    ensures
        0 <= j < entries.len(),
        entries[j].0@ == others[i].0@,
        entries[j].1@ == others[i].1@,
{
    choose|j: int|
        0 <= j < entries.len() && #[trigger] entries[j].0@ == others[i].0@ && entries[j].1@
            == others[i].1@
}

/// The texts of client errors.
pub proof fn grpc_errors_in_words(
    addr: String,
    message: String,
    invalid: AddressError,
    cause: tonic::transport::Error,
)
    ensures
        (GrpcClientError::InvalidAddress { addr, cause: invalid }).text() == "invalid gRPC address `"@
            + addr@ + "`"@,
        (GrpcClientError::Connect { addr, cause }).text() == "failed to connect gRPC channel to `"@
            + addr@ + "`"@,
        GrpcClientError::SerializeMessage(message).text()
            == "failed to serialize outbound message payload"@,
        GrpcClientError::SerializeEvent(message).text()
            == "failed to serialize outbound event payload"@,
        GrpcClientError::Invoke(message).text() == "gRPC invoke failed: "@ + message@,
        GrpcClientError::Emit(message).text() == "gRPC emit failed: "@ + message@,
        GrpcClientError::Response(message).text()
            == "failed to deserialize outbound message response"@,
{
}

} // verus!

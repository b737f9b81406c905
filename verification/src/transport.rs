//! Records, and what is known of the connection to the brokers.
//!
//! A transport connects when it is first used, and keeps the connection and the
//! handle of each partition that it has opened. What a handle is, the user of
//! the transport decides: `C` is the connection, `P` the handle of a partition.

use crate::config::KafkaConfig;
use crate::table::StringTable;
use crate::text::{
    decimal, decimal_is_digits, decimal_is_injective, signed_decimal, signed_decimal_text,
};
use crate::time::{current_time, told_as_now, Timestamp};
use crate::wire::{header_bytes, headers_hold_the_kind_alone, headers_of_kind, kind_headers};
use rskafka::client::partition::Compression;
use vstd::prelude::*;
use vstd::std_specs::convert::FromSpec;
use vstd::utf8::encode_utf8;

verus! {

/// What optional bytes are.
pub open spec fn bytes_view(bytes: Option<Vec<u8>>) -> Option<Seq<u8>> {
    match bytes {
        Some(bytes) => Some(bytes@),
        None => None,
    }
}

/// What a record says, apart from its time.
#[verifier::ext_equal]
pub struct RecordView {
    pub key: Option<Seq<u8>>,
    pub value: Option<Seq<u8>>,
    pub headers: Map<Seq<char>, Seq<u8>>,
}

/// A record of a topic.
#[derive(Debug, PartialEq, Eq)]
pub struct KafkaRecord {
    pub key: Option<Vec<u8>>,
    pub value: Option<Vec<u8>>,
    pub headers: StringTable<Vec<u8>>,
    pub timestamp: Timestamp,
}

impl View for KafkaRecord {
    type V = RecordView;

    open spec fn view(&self) -> RecordView {
        RecordView {
            key: bytes_view(self.key),
            value: bytes_view(self.value),
            headers: header_bytes(self.headers@),
        }
    }
}

/// A record of a kind.
pub open spec fn record_of(kind: Seq<char>, value: Seq<u8>, key: Option<Seq<u8>>) -> RecordView {
    RecordView { key, value: Some(value), headers: headers_of_kind(kind) }
}

/// Makes a record of a kind for a given time.
pub fn record_at(kind: &str, value: Vec<u8>, key: Option<Vec<u8>>, timestamp: Timestamp) -> (r:
    KafkaRecord)
    ensures
        r@ == record_of(kind@, value@, bytes_view(key)),
        r.timestamp == timestamp,
{
    KafkaRecord { key, value: Some(value), headers: kind_headers(kind), timestamp }
}

/// Makes a record of a kind for the time at which it is made.
pub fn build_record(kind: &str, value: Vec<u8>, key: Option<Vec<u8>>) -> (r: KafkaRecord)
    ensures
        r@ == record_of(kind@, value@, bytes_view(key)),
        told_as_now(r.timestamp),
{
    record_at(kind, value, key, current_time())
}

/// The name of a partition: the topic and the number, with a colon between them.
pub open spec fn partition_name(topic: Seq<char>, partition: int) -> Seq<char> {
    topic + seq![':'] + signed_decimal(partition)
}

/// Writes the name of a partition.
pub fn partition_text(topic: &str, partition: i32) -> (r: String)
    ensures
        r@ == partition_name(topic@, partition as int),
{
    proof {
        reveal_strlit(":");
        assert(":"@ =~= seq![':']);
    }
    topic.to_owned().concat(":").concat(signed_decimal_text(partition).as_str())
}

/// Partitions with the same name are the same partition of the same topic.
pub proof fn partition_names_differ(
    topic: Seq<char>,
    partition: int,
    other_topic: Seq<char>,
    other_partition: int,
)
    requires
        partition_name(topic, partition) == partition_name(other_topic, other_partition),
    ensures
        topic == other_topic,
        partition == other_partition,
{
    let left = partition_name(topic, partition);
    let right = partition_name(other_topic, other_partition);
    let i = topic.len() as int;
    let j = other_topic.len() as int;
    let a = if partition < 0 { (-partition) as nat } else { partition as nat };
    let b = if other_partition < 0 { (-other_partition) as nat } else { other_partition as nat };
    decimal_is_digits(a);
    decimal_is_digits(b);
    assert(left[i] == ':');
    assert(right[j] == ':');
    assert(left.skip(i + 1) =~= signed_decimal(partition));
    assert(right.skip(j + 1) =~= signed_decimal(other_partition));
    if i < j {
        assert(left[j] == left.skip(i + 1)[j - i - 1]);
        assert(signed_decimal(partition)[j - i - 1] != ':');
    } else if j < i {
        assert(right[i] == right.skip(j + 1)[i - j - 1]);
        assert(signed_decimal(other_partition)[i - j - 1] != ':');
    }
    assert(left.take(i) =~= topic);
    assert(right.take(j) =~= other_topic);
    assert((partition < 0) == (signed_decimal(partition)[0] == '-'));
    assert((other_partition < 0) == (signed_decimal(other_partition)[0] == '-'));
    if partition < 0 {
        assert(signed_decimal(partition).skip(1) =~= decimal(a));
        assert(signed_decimal(other_partition).skip(1) =~= decimal(b));
    }
    decimal_is_injective(a, b);
}

/// Why the brokers could not be reached or used.
#[derive(Debug, Clone, PartialEq, Eq)]
pub enum TransportError {
    /// There is no connection; with the cause.
    Connect(String),
    /// A partition could not be opened; with the cause.
    OpenPartition { topic: String, partition: i32, cause: String },
    /// A record could not be produced; with the cause.
    Produce { topic: String, partition: i32, cause: String },
}

impl TransportError {
    /// The text of the error, without its cause.
    pub open spec fn text(self) -> Seq<char> {
        match self {
            TransportError::Connect(_) => "failed to connect to kafka brokers"@,
            TransportError::OpenPartition { topic, partition, .. } => "failed to open partition "@
                + partition_name(topic@, partition as int),
            TransportError::Produce { topic, partition, .. } => "failed to produce to "@
                + partition_name(topic@, partition as int),
        }
    }

    /// What failed, in words.
    pub fn message(&self) -> (r: String)
        ensures
            r@ == self.text(),
    {
        match self {
            TransportError::Connect(_) => "failed to connect to kafka brokers".to_owned(),
            TransportError::OpenPartition { topic, partition, .. } => "failed to open partition ".to_owned().concat(
                partition_text(topic.as_str(), *partition).as_str(),
            ),
            TransportError::Produce { topic, partition, .. } => "failed to produce to ".to_owned().concat(
                partition_text(topic.as_str(), *partition).as_str(),
            ),
        }
    }
}

/// What a transport knows.
#[verifier::ext_equal]
#[verifier::reject_recursive_types(C)]
#[verifier::reject_recursive_types(P)]
pub struct TransportView<C, P> {
    pub config: KafkaConfig,
    pub connection: Option<C>,
    /// The handles of the partitions, by the partition's name.
    pub partitions: Map<Seq<char>, P>,
}

impl<C, P> TransportView<C, P> {
    /// The transport once it is connected.
    pub open spec fn after_connecting(self, client: C) -> Self {
        TransportView { connection: Some(client), ..self }
    }

    /// The transport once a partition is open.
    pub open spec fn after_opening(self, topic: Seq<char>, partition: int, handle: P) -> Self {
        TransportView {
            partitions: self.partitions.insert(partition_name(topic, partition), handle),
            ..self
        }
    }

    /// The handle of a partition, if it is open.
    pub open spec fn handle(self, topic: Seq<char>, partition: int) -> Option<P> {
        if self.partitions.contains_key(partition_name(topic, partition)) {
            Some(self.partitions[partition_name(topic, partition)])
        } else {
            None
        }
    }
}

/// The connection to the brokers, made when it is first used, and the handles of
/// the partitions that were opened.
#[verifier::reject_recursive_types(C)]
#[verifier::reject_recursive_types(P)]
pub struct KafkaTransport<C, P> {
    config: KafkaConfig,
    connection: Option<C>,
    partitions: StringTable<P>,
}

impl<C, P> View for KafkaTransport<C, P> {
    type V = TransportView<C, P>;

    closed spec fn view(&self) -> TransportView<C, P> {
        TransportView {
            config: self.config,
            connection: self.connection,
            partitions: self.partitions@,
        }
    }
}

/// How to come by a connection.
pub enum ClientStep<'a, C> {
    /// It is there.
    Ready(&'a C),
    /// It has to be made, with these parameters.
    Connect(&'a KafkaConfig),
}

/// How to come by the handle of a partition.
pub enum PartitionStep<'a, C, P> {
    /// It is there.
    Ready(&'a P),
    /// It has to be opened over this connection.
    Open(&'a C),
    /// A connection has to be made first, with these parameters.
    Connect(&'a KafkaConfig),
}

/// How to produce records.
pub enum ProduceStep<'a, C, P> {
    /// Over this handle, with this compression.
    Produce(&'a P, Compression),
    /// The partition has to be opened first, over this connection.
    Open(&'a C),
    /// A connection has to be made first, with these parameters.
    Connect(&'a KafkaConfig),
}

impl<C, P> KafkaTransport<C, P> {
    /// A transport that is not connected yet.
    pub fn new(config: KafkaConfig) -> (r: Self)
        ensures
            r@ == (TransportView {
                config,
                connection: None::<C>,
                partitions: Map::<Seq<char>, P>::empty(),
            }),
    {
        KafkaTransport { config, connection: None, partitions: StringTable::new() }
    }

    /// The parameters.
    pub fn config(&self) -> (r: &KafkaConfig)
        ensures
            *r == self@.config,
    {
        &self.config
    }

    /// How to come by a connection: a transport that has one uses it again.
    pub fn client(&self) -> (r: ClientStep<'_, C>)
        ensures
            match self@.connection {
                Some(client) => r == ClientStep::Ready(&client),
                None => r == ClientStep::<C>::Connect(&self@.config),
            },
    {
        match &self.connection {
            Some(client) => ClientStep::Ready(client),
            None => ClientStep::Connect(&self.config),
        }
    }

    /// Keeps a connection that was made. Where none was, the transport is as it was,
    /// so that its next use tries again.
    pub fn connected(&mut self, outcome: Result<C, String>) -> (r: Result<(), TransportError>)
        ensures
            match outcome {
                Ok(client) => r is Ok && final(self)@ == old(self)@.after_connecting(client),
                Err(cause) => {
                    &&& r is Err
                    &&& r->Err_0 == TransportError::Connect(cause)
                    &&& final(self)@ == old(self)@
                },
            },
    {
        match outcome {
            Ok(client) => {
                self.connection = Some(client);
                Ok(())
            },
            Err(cause) => Err(TransportError::Connect(cause)),
        }
    }

    /// How to come by the handle of a partition: one that is open is used again,
    /// and needs no connection.
    pub fn partition_client(&self, topic: &str, partition: i32) -> (r: PartitionStep<'_, C, P>)
        ensures
            match (self@.handle(topic@, partition as int), self@.connection) {
                (Some(handle), _) => r == PartitionStep::<C, P>::Ready(&handle),
                (None, Some(client)) => r == PartitionStep::<C, P>::Open(&client),
                (None, None) => r == PartitionStep::<C, P>::Connect(&self@.config),
            },
    {
        let name = partition_text(topic, partition);
        match self.partitions.get(name.as_str()) {
            Some(handle) => PartitionStep::Ready(handle),
            None => match self.client() {
                ClientStep::Ready(client) => PartitionStep::Open(client),
                ClientStep::Connect(config) => PartitionStep::Connect(config),
            },
        }
    }

    /// Keeps the handle of a partition that was opened. Where it was not, the
    /// transport is as it was, so that the next use of the partition tries again.
    pub fn opened(&mut self, topic: &str, partition: i32, outcome: Result<P, String>) -> (r: Result<
        (),
        TransportError,
    >)
        ensures
            match outcome {
                Ok(handle) => {
                    &&& r is Ok
                    &&& final(self)@ == old(self)@.after_opening(topic@, partition as int, handle)
                },
                Err(cause) => {
                    &&& r is Err
                    &&& r->Err_0 is OpenPartition
                    &&& r->Err_0->OpenPartition_topic@ == topic@
                    &&& r->Err_0->OpenPartition_partition == partition
                    &&& r->Err_0->OpenPartition_cause == cause
                    &&& final(self)@ == old(self)@
                },
            },
    {
        match outcome {
            Ok(handle) => {
                let name = partition_text(topic, partition);
                self.partitions.insert(name, handle);
                Ok(())
            },
            Err(cause) => Err(
                TransportError::OpenPartition { topic: topic.to_owned(), partition, cause },
            ),
        }
    }

    /// How to produce to a partition.
    pub fn produce(&self, topic: &str, partition: i32) -> (r: ProduceStep<'_, C, P>)
        ensures
            match (self@.handle(topic@, partition as int), self@.connection) {
                (Some(handle), _) => r == ProduceStep::<C, P>::Produce(
                    &handle,
                    Compression::from_spec(self@.config.compression),
                ),
                (None, Some(client)) => r == ProduceStep::<C, P>::Open(&client),
                (None, None) => r == ProduceStep::<C, P>::Connect(&self@.config),
            },
    {
        match self.partition_client(topic, partition) {
            PartitionStep::Ready(handle) => ProduceStep::Produce(
                handle,
                Compression::from(self.config.compression),
            ),
            PartitionStep::Open(client) => ProduceStep::Open(client),
            PartitionStep::Connect(config) => ProduceStep::Connect(config),
        }
    }
}

/// What came of producing to a partition.
pub fn finish_produce(topic: &str, partition: i32, outcome: Result<(), String>) -> (r: Result<
    (),
    TransportError,
>)
    ensures
        match outcome {
            Ok(_) => r is Ok,
            Err(cause) => {
                &&& r is Err
                &&& r->Err_0 is Produce
                &&& r->Err_0->Produce_topic@ == topic@
                &&& r->Err_0->Produce_partition == partition
                &&& r->Err_0->Produce_cause == cause
            },
        },
{
    match outcome {
        Ok(_) => Ok(()),
        Err(cause) => Err(TransportError::Produce { topic: topic.to_owned(), partition, cause }),
    }
}

/// A partition that was opened is used again, and no other partition is touched;
/// a connection that was made is used again, whatever was opened since.
pub proof fn handles_are_used_again<C, P>(
    transport: TransportView<C, P>,
    topic: Seq<char>,
    partition: int,
    handle: P,
    other_topic: Seq<char>,
    other_partition: int,
    client: C,
)
    ensures
        transport.after_opening(topic, partition, handle).handle(topic, partition) == Some(handle),
        (topic, partition) != (other_topic, other_partition) ==> transport.after_opening(
            topic,
            partition,
            handle,
        ).handle(other_topic, other_partition) == transport.handle(other_topic, other_partition),
        transport.after_connecting(client).after_opening(topic, partition, handle).connection
            == Some(client),
        transport.after_connecting(client).handle(other_topic, other_partition)
            == transport.handle(other_topic, other_partition),
{
    if partition_name(topic, partition) == partition_name(other_topic, other_partition) {
        partition_names_differ(topic, partition, other_topic, other_partition);
    }
}

/// A record of a kind has the value and the key that it is made of, and the kind as its
/// one header.
pub proof fn record_holds_what_it_is_made_of(kind: Seq<char>, value: Seq<u8>, key: Option<Seq<u8>>)
    ensures
        record_of(kind, value, key).key == key,
        record_of(kind, value, key).value == Some(value),
        record_of(kind, value, key).headers.dom() == set!["nestforge-kind"@],
        record_of(kind, value, key).headers["nestforge-kind"@] == encode_utf8(kind),
{
    headers_hold_the_kind_alone(kind);
}

/// A record says its key, its value and its headers.
pub proof fn record_says_its_fields(record: KafkaRecord, name: Seq<char>)
    ensures
        record@.key is Some <==> record.key is Some,
        record.key matches Some(key) ==> record@.key == Some(key@),
        record@.value is Some <==> record.value is Some,
        record.value matches Some(value) ==> record@.value == Some(value@),
        record@.headers.contains_key(name) == record.headers@.contains_key(name),
        record.headers@.contains_key(name) ==> record@.headers[name] == record.headers@[name]@,
{
}

/// The name of a partition is the topic, a colon and the number.
pub proof fn partition_name_is_topic_and_number(topic: Seq<char>, partition: int)
    ensures
        partition_name(topic, partition) == topic + ":"@ + signed_decimal(partition),
{
    reveal_strlit(":");
    assert(":"@ =~= seq![':']);
}

/// The texts of transport errors.
pub proof fn transport_errors_in_words(topic: String, partition: i32, cause: String)
    ensures
        TransportError::Connect(cause).text() == "failed to connect to kafka brokers"@,
        (TransportError::OpenPartition { topic, partition, cause }).text()
            == "failed to open partition "@ + (topic@ + ":"@ + signed_decimal(partition as int)),
        (TransportError::Produce { topic, partition, cause }).text() == "failed to produce to "@ + (
        topic@ + ":"@ + signed_decimal(partition as int)),
{
    partition_name_is_topic_and_number(topic@, partition as int);
}

/// Connecting and opening change nothing else: the parameters stay, a connection opens no
/// partition, and a partition that is opened makes no connection.
pub proof fn transport_keeps_the_rest<C, P>(
    transport: TransportView<C, P>,
    client: C,
    topic: Seq<char>,
    partition: int,
    handle: P,
)
    ensures
        transport.after_connecting(client).config == transport.config,
        transport.after_connecting(client).connection == Some(client),
        transport.after_connecting(client).partitions == transport.partitions,
        transport.after_opening(topic, partition, handle).config == transport.config,
        transport.after_opening(topic, partition, handle).connection == transport.connection,
{
}

/// A transport without handles has none for any partition.
pub proof fn nothing_is_open_at_first<C, P>(
    transport: TransportView<C, P>,
    topic: Seq<char>,
    partition: int,
)
    requires
        transport.partitions == Map::<Seq<char>, P>::empty(),
    ensures
        transport.handle(topic, partition) is None,
{
}

} // verus!

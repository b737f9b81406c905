//! Connection parameters and subscriptions.

use crate::time::duration_nanos;
use rskafka::client::consumer::StartOffset;
use rskafka::client::partition::Compression;
use std::time::Duration;
use vstd::prelude::*;
use vstd::std_specs::convert::{FromSpec, FromSpecImpl};

verus! {

/// `rskafka::client::partition::Compression`, with all its variants.
#[verifier::external_type_specification]
pub struct ExCompression(rskafka::client::partition::Compression);

/// `rskafka::client::consumer::StartOffset`, with all its variants.
#[verifier::external_type_specification]
pub struct ExStartOffset(rskafka::client::consumer::StartOffset);

/// How to reach the brokers, and how to send.
#[derive(Debug)]
pub struct KafkaConfig {
    /// The bootstrap brokers, as `"host:port"`.
    pub brokers: Vec<String>,
    /// The client id, where it is not the default one.
    pub client_id: Option<String>,
    /// The compression of what is produced.
    pub compression: KafkaCompression,
    /// The partition to which requests and events are written.
    pub default_partition: i32,
    /// How long a request waits for its reply.
    pub request_timeout: Duration,
    /// What stands before a pattern in the name of its topic.
    pub topic_prefix: String,
    /// What stands before a client's suffix in the name of its reply topic.
    pub reply_topic_prefix: String,
}

impl Clone for KafkaConfig {
    fn clone(&self) -> (r: Self)
        ensures
            r.brokers@ == self.brokers@,
            r == (KafkaConfig { brokers: r.brokers, ..*self }),
    {
        let brokers = self.brokers.clone();
        assert(brokers@ =~= self.brokers@);
        KafkaConfig {
            brokers,
            client_id: self.client_id.clone(),
            compression: self.compression,
            default_partition: self.default_partition,
            request_timeout: self.request_timeout,
            topic_prefix: self.topic_prefix.clone(),
            reply_topic_prefix: self.reply_topic_prefix.clone(),
        }
    }
}

/// The topic of a pattern under a prefix.
pub open spec fn topic_of(prefix: Seq<char>, pattern: Seq<char>) -> Seq<char> {
    prefix + pattern
}

impl KafkaConfig {
    /// The default parameters for these brokers.
    pub fn new(brokers: Vec<String>) -> (r: Self)
        ensures
            r.brokers == brokers,
            r.client_id is None,
            r.compression == KafkaCompression::NoCompression,
            r.default_partition == 0,
            duration_nanos(r.request_timeout) == 30_000_000_000,
            r.topic_prefix@ == Seq::<char>::empty(),
            r.reply_topic_prefix@ == "nestforge.reply."@,
    {
        KafkaConfig {
            brokers,
            client_id: None,
            compression: KafkaCompression::NoCompression,
            default_partition: 0,
            request_timeout: Duration::from_secs(30),
            topic_prefix: String::new(),
            reply_topic_prefix: "nestforge.reply.".to_owned(),
        }
    }

    pub fn with_client_id(self, client_id: String) -> (r: Self)
        ensures
            r == (KafkaConfig { client_id: Some(client_id), ..self }),
    {
        KafkaConfig { client_id: Some(client_id), ..self }
    }

    pub fn with_compression(self, compression: KafkaCompression) -> (r: Self)
        ensures
            r == (KafkaConfig { compression, ..self }),
    {
        KafkaConfig { compression, ..self }
    }

    pub fn with_default_partition(self, partition: i32) -> (r: Self)
        ensures
            r == (KafkaConfig { default_partition: partition, ..self }),
    {
        KafkaConfig { default_partition: partition, ..self }
    }

    pub fn with_request_timeout(self, timeout: Duration) -> (r: Self)
        ensures
            r == (KafkaConfig { request_timeout: timeout, ..self }),
    {
        KafkaConfig { request_timeout: timeout, ..self }
    }

    pub fn with_topic_prefix(self, prefix: String) -> (r: Self)
        ensures
            r == (KafkaConfig { topic_prefix: prefix, ..self }),
    {
        KafkaConfig { topic_prefix: prefix, ..self }
    }

    pub fn with_reply_topic_prefix(self, prefix: String) -> (r: Self)
        ensures
            r == (KafkaConfig { reply_topic_prefix: prefix, ..self }),
    {
        KafkaConfig { reply_topic_prefix: prefix, ..self }
    }

    /// The topic of a pattern: the pattern after the prefix.
    pub fn topic_for(&self, pattern: &str) -> (r: String)
        ensures
            r@ == topic_of(self.topic_prefix@, pattern@),
            r@ == self.topic_prefix@ + pattern@,
    {
        self.topic_prefix.clone().concat(pattern)
    }
}

/// Under one prefix different patterns have different topics, and without a
/// prefix the topic is the pattern.
pub proof fn topics_tell_patterns_apart(prefix: Seq<char>, a: Seq<char>, b: Seq<char>)
    ensures
        topic_of(prefix, a) == topic_of(prefix, b) ==> a == b,
        topic_of(Seq::<char>::empty(), a) == a,
{
    assert(topic_of(prefix, a).skip(prefix.len() as int) =~= a);
    assert(topic_of(prefix, b).skip(prefix.len() as int) =~= b);
    assert(topic_of(Seq::<char>::empty(), a) =~= a);
}

/// The compression of what is produced.
#[derive(Debug, Clone, Copy, PartialEq, Eq, Structural, Default)]
pub enum KafkaCompression {
    #[default]
    NoCompression,
    Gzip,
    Lz4,
    Snappy,
    Zstd,
}

impl From<KafkaCompression> for Compression {
    fn from(value: KafkaCompression) -> (r: Self) {
        match value {
            KafkaCompression::NoCompression => Compression::NoCompression,
            KafkaCompression::Gzip => Compression::Gzip,
            KafkaCompression::Lz4 => Compression::Lz4,
            KafkaCompression::Snappy => Compression::Snappy,
            KafkaCompression::Zstd => Compression::Zstd,
        }
    }
}

impl FromSpecImpl<KafkaCompression> for Compression {
    open spec fn obeys_from_spec() -> bool {
        true
    }

    open spec fn from_spec(value: KafkaCompression) -> Self {
        match value {
            KafkaCompression::NoCompression => Compression::NoCompression,
            KafkaCompression::Gzip => Compression::Gzip,
            KafkaCompression::Lz4 => Compression::Lz4,
            KafkaCompression::Snappy => Compression::Snappy,
            KafkaCompression::Zstd => Compression::Zstd,
        }
    }
}

/// Where in a topic a subscription starts.
#[derive(Debug, Clone, Copy, PartialEq, Eq, Structural)]
pub enum KafkaStartOffset {
    /// At the earliest record that is still kept.
    Earliest,
    /// After the latest record.
    Latest,
    /// At an offset.
    At(i64),
}

impl From<KafkaStartOffset> for StartOffset {
    fn from(value: KafkaStartOffset) -> (r: Self) {
        match value {
            KafkaStartOffset::Earliest => StartOffset::Earliest,
            KafkaStartOffset::Latest => StartOffset::Latest,
            KafkaStartOffset::At(offset) => StartOffset::At(offset),
        }
    }
}

impl FromSpecImpl<KafkaStartOffset> for StartOffset {
    open spec fn obeys_from_spec() -> bool {
        true
    }

    open spec fn from_spec(value: KafkaStartOffset) -> Self {
        match value {
            KafkaStartOffset::Earliest => StartOffset::Earliest,
            KafkaStartOffset::Latest => StartOffset::Latest,
            KafkaStartOffset::At(offset) => StartOffset::At(offset),
        }
    }
}

/// A subscription to one partition of a topic.
#[derive(Debug)]
pub struct KafkaSubscription {
    pub topic: String,
    pub partition: i32,
    pub start: KafkaStartOffset,
    /// How many milliseconds one fetch waits at most.
    pub max_wait_ms: i32,
}

impl Clone for KafkaSubscription {
    fn clone(&self) -> (r: Self)
        ensures
            r == *self,
    {
        KafkaSubscription {
            topic: self.topic.clone(),
            partition: self.partition,
            start: self.start,
            max_wait_ms: self.max_wait_ms,
        }
    }
}

impl KafkaSubscription {
    /// Subscribes to partition 0 of a topic, from the earliest record on.
    pub fn new(topic: String) -> (r: Self)
        ensures
            r == (KafkaSubscription {
                topic,
                partition: 0,
                start: KafkaStartOffset::Earliest,
                max_wait_ms: 500,
            }),
    {
        KafkaSubscription {
            topic,
            partition: 0,
            start: KafkaStartOffset::Earliest,
            max_wait_ms: 500,
        }
    }

    pub fn partition(self, partition: i32) -> (r: Self)
        ensures
            r == (KafkaSubscription { partition, ..self }),
    {
        KafkaSubscription { partition, ..self }
    }

    pub fn start(self, start: KafkaStartOffset) -> (r: Self)
        ensures
            r == (KafkaSubscription { start, ..self }),
    {
        KafkaSubscription { start, ..self }
    }

    pub fn max_wait_ms(self, max_wait_ms: i32) -> (r: Self)
        ensures
            r == (KafkaSubscription { max_wait_ms, ..self }),
    {
        KafkaSubscription { max_wait_ms, ..self }
    }
}

/// The subscription to a pattern's topic, in partition 0 and from the earliest
/// record on.
pub fn subscription(pattern: String) -> (r: KafkaSubscription)
    ensures
        r == (KafkaSubscription {
            topic: pattern,
            partition: 0,
            start: KafkaStartOffset::Earliest,
            max_wait_ms: 500,
        }),
{
    KafkaSubscription::new(pattern)
}

/// The topic of a pattern is the prefix and then the pattern, whatever the prefix is:
/// both can be read off it.
pub proof fn topic_is_prefix_and_pattern(prefix: Seq<char>, pattern: Seq<char>)
    ensures
        topic_of(prefix, pattern).len() == prefix.len() + pattern.len(),
        topic_of(prefix, pattern).take(prefix.len() as int) == prefix,
        topic_of(prefix, pattern).skip(prefix.len() as int) == pattern,
{
    assert(topic_of(prefix, pattern).take(prefix.len() as int) =~= prefix);
    assert(topic_of(prefix, pattern).skip(prefix.len() as int) =~= pattern);
}

/// Under different prefixes a pattern has different topics.
pub proof fn topics_tell_prefixes_apart(a: Seq<char>, b: Seq<char>, pattern: Seq<char>)
    requires
        topic_of(a, pattern) == topic_of(b, pattern),
    ensures
        a == b,
{
    topic_is_prefix_and_pattern(a, pattern);
    topic_is_prefix_and_pattern(b, pattern);
}

/// Each compression is the one of its name.
pub proof fn compressions_keep_their_names()
    ensures
        <Compression as FromSpec<KafkaCompression>>::from_spec(KafkaCompression::NoCompression)
            == Compression::NoCompression,
        <Compression as FromSpec<KafkaCompression>>::from_spec(KafkaCompression::Gzip)
            == Compression::Gzip,
        <Compression as FromSpec<KafkaCompression>>::from_spec(KafkaCompression::Lz4)
            == Compression::Lz4,
        <Compression as FromSpec<KafkaCompression>>::from_spec(KafkaCompression::Snappy)
            == Compression::Snappy,
        <Compression as FromSpec<KafkaCompression>>::from_spec(KafkaCompression::Zstd)
            == Compression::Zstd,
{
}

/// Each start is the one of its name, and an offset stays what it is.
pub proof fn starts_keep_their_names(offset: i64)
    ensures
        <StartOffset as FromSpec<KafkaStartOffset>>::from_spec(KafkaStartOffset::Earliest)
            == StartOffset::Earliest,
        <StartOffset as FromSpec<KafkaStartOffset>>::from_spec(KafkaStartOffset::Latest)
            == StartOffset::Latest,
        <StartOffset as FromSpec<KafkaStartOffset>>::from_spec(KafkaStartOffset::At(offset))
            == StartOffset::At(offset),
{
}

} // verus!

use nestforge_transport::{
    subscription, KafkaCompression, KafkaConfig, KafkaStartOffset, KafkaSubscription,
};
use rskafka::client::consumer::StartOffset;
use rskafka::client::partition::Compression;
use std::time::Duration;

fn config() -> KafkaConfig {
    KafkaConfig::new(vec!["localhost:9092".to_string()])
}

#[test]
fn default_parameters() {
    let config = config();
    assert_eq!(config.brokers, vec!["localhost:9092".to_string()]);
    assert_eq!(config.client_id, None);
    assert_eq!(config.compression, KafkaCompression::NoCompression);
    assert_eq!(config.default_partition, 0);
    assert_eq!(config.request_timeout, Duration::from_secs(30));
    assert_eq!(config.topic_prefix, "");
    assert_eq!(config.reply_topic_prefix, "nestforge.reply.");
    assert_eq!(KafkaCompression::default(), KafkaCompression::NoCompression);
}

#[test]
fn each_parameter_can_be_set() {
    let config = config()
        .with_client_id("node-1".to_string())
        .with_compression(KafkaCompression::Lz4)
        .with_default_partition(3)
        .with_request_timeout(Duration::from_millis(1500))
        .with_topic_prefix("app.".to_string())
        .with_reply_topic_prefix("replies.".to_string())
        .clone();
    assert_eq!(config.brokers, vec!["localhost:9092".to_string()]);
    assert_eq!(config.client_id.as_deref(), Some("node-1"));
    assert_eq!(config.compression, KafkaCompression::Lz4);
    assert_eq!(config.default_partition, 3);
    assert_eq!(config.request_timeout, Duration::from_millis(1500));
    assert_eq!(config.topic_prefix, "app.");
    assert_eq!(config.reply_topic_prefix, "replies.");
}

#[test]
fn topic_is_the_pattern_after_the_prefix() {
    assert_eq!(config().topic_for("users.count"), "users.count");
    let prefixed = config().with_topic_prefix("app.".to_string());
    assert_eq!(prefixed.topic_for("users.count"), "app.users.count");
    assert_ne!(prefixed.topic_for("a"), prefixed.topic_for("b"));
}

#[test]
fn compressions_are_those_of_the_brokers_client() {
    assert_eq!(
        Compression::from(KafkaCompression::NoCompression),
        Compression::NoCompression
    );
    assert_eq!(Compression::from(KafkaCompression::Gzip), Compression::Gzip);
    assert_eq!(Compression::from(KafkaCompression::Lz4), Compression::Lz4);
    assert_eq!(Compression::from(KafkaCompression::Snappy), Compression::Snappy);
    assert_eq!(Compression::from(KafkaCompression::Zstd), Compression::Zstd);
}

#[test]
fn start_offsets_are_those_of_the_brokers_client() {
    assert!(matches!(
        StartOffset::from(KafkaStartOffset::Earliest),
        StartOffset::Earliest
    ));
    assert!(matches!(
        StartOffset::from(KafkaStartOffset::Latest),
        StartOffset::Latest
    ));
    assert!(matches!(
        StartOffset::from(KafkaStartOffset::At(42)),
        StartOffset::At(42)
    ));
}

#[test]
fn subscription_starts_at_the_earliest_record_of_partition_zero() {
    for subscription in [
        KafkaSubscription::new("users.count".to_string()),
        subscription("users.count".to_string()),
    ] {
        assert_eq!(subscription.topic, "users.count");
        assert_eq!(subscription.partition, 0);
        assert_eq!(subscription.start, KafkaStartOffset::Earliest);
        assert_eq!(subscription.max_wait_ms, 500);
    }
    let custom = KafkaSubscription::new("t".to_string())
        .partition(2)
        .start(KafkaStartOffset::At(9))
        .max_wait_ms(50);
    assert_eq!(custom.partition, 2);
    assert_eq!(custom.start, KafkaStartOffset::At(9));
    assert_eq!(custom.max_wait_ms, 50);
}

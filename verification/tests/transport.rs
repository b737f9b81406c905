use nestforge_transport::transport::{
    build_record, finish_produce, partition_text, record_at, ClientStep, PartitionStep, ProduceStep, TransportError,
};
use nestforge_transport::time::Timestamp;
use nestforge_transport::wire::kind_of;
use nestforge_transport::{KafkaCompression, KafkaConfig, KafkaTransport};
use rskafka::client::partition::Compression;

fn transport() -> KafkaTransport<u32, u64> {
    KafkaTransport::new(
        KafkaConfig::new(vec!["localhost:9092".to_string()])
            .with_compression(KafkaCompression::Zstd),
    )
}

#[test]
fn connection_is_made_once() {
    let mut transport = transport();
    match transport.client() {
        ClientStep::Connect(config) => {
            assert_eq!(config.brokers, vec!["localhost:9092".to_string()])
        }
        ClientStep::Ready(_) => panic!("not connected yet"),
    }
    transport.connected(Ok(7)).unwrap();
    assert!(matches!(transport.client(), ClientStep::Ready(7)));
    transport.opened("t", 0, Ok(1)).unwrap();
    assert!(matches!(transport.client(), ClientStep::Ready(7)));
    assert_eq!(transport.config().compression, KafkaCompression::Zstd);
}

#[test]
fn partition_is_opened_once() {
    let mut transport = transport();
    assert!(matches!(
        transport.partition_client("t", 0),
        PartitionStep::Connect(_)
    ));
    transport.connected(Ok(7)).unwrap();
    assert!(matches!(
        transport.partition_client("t", 0),
        PartitionStep::Open(7)
    ));
    transport.opened("t", 0, Ok(100)).unwrap();
    transport.opened("t", 1, Ok(101)).unwrap();
    transport.opened("t", -1, Ok(102)).unwrap();
    assert!(matches!(
        transport.partition_client("t", 0),
        PartitionStep::Ready(100)
    ));
    assert!(matches!(
        transport.partition_client("t", 1),
        PartitionStep::Ready(101)
    ));
    assert!(matches!(
        transport.partition_client("t", -1),
        PartitionStep::Ready(102)
    ));
    assert!(matches!(
        transport.partition_client("t:0", 0),
        PartitionStep::Open(7)
    ));
}

#[test]
fn producing_uses_the_configured_compression() {
    let mut transport = transport();
    assert!(matches!(transport.produce("t", 0), ProduceStep::Connect(_)));
    transport.connected(Ok(7)).unwrap();
    assert!(matches!(transport.produce("t", 0), ProduceStep::Open(7)));
    transport.opened("t", 0, Ok(100)).unwrap();
    match transport.produce("t", 0) {
        ProduceStep::Produce(handle, compression) => {
            assert_eq!(*handle, 100);
            assert_eq!(compression, Compression::Zstd);
        }
        _ => panic!("the partition is open"),
    }
}

#[test]
fn open_partition_needs_no_connection() {
    let mut transport = transport();
    transport.opened("t", 0, Ok(100)).unwrap();
    assert!(matches!(
        transport.partition_client("t", 0),
        PartitionStep::Ready(100)
    ));
}

#[test]
fn failure_leaves_the_transport_as_it_was() {
    let mut transport = transport();
    assert_eq!(
        transport.connected(Err("refused".to_string())),
        Err(TransportError::Connect("refused".to_string()))
    );
    assert!(matches!(transport.client(), ClientStep::Connect(_)));
    transport.connected(Ok(7)).unwrap();
    let error = transport.opened("t", 2, Err("gone".to_string())).unwrap_err();
    assert_eq!(error.message(), "failed to open partition t:2");
    assert!(matches!(
        transport.partition_client("t", 2),
        PartitionStep::Open(7)
    ));
}

#[test]
fn producing_tells_where_it_failed() {
    assert_eq!(finish_produce("t", 0, Ok(())), Ok(()));
    assert_eq!(
        finish_produce("t", 0, Err("gone".to_string())),
        Err(TransportError::Produce {
            topic: "t".to_string(),
            partition: 0,
            cause: "gone".to_string()
        })
    );
}

#[test]
fn record_has_its_kind_value_and_time() {
    let timestamp = Timestamp {
        seconds: 5,
        nanoseconds: 6,
    };
    let record = record_at("event", vec![1, 2], Some(vec![3]), timestamp);
    assert_eq!(record.key, Some(vec![3]));
    assert_eq!(record.value, Some(vec![1, 2]));
    assert_eq!(record.timestamp, timestamp);
    assert_eq!(kind_of(&record.headers).as_deref(), Some("event"));
}

#[test]
fn record_is_stamped_with_the_clock() {
    let before = chrono::Utc::now().timestamp();
    let record = build_record("message", vec![], None);
    let after = chrono::Utc::now().timestamp();
    assert!(before <= record.timestamp.seconds && record.timestamp.seconds <= after);
    assert_eq!(record.key, None);
    assert_eq!(record.value, Some(vec![]));
}

#[test]
fn errors_in_words() {
    assert_eq!(partition_text("users.count", 3), "users.count:3");
    assert_eq!(
        TransportError::Connect("refused".to_string()).message(),
        "failed to connect to kafka brokers"
    );
    assert_eq!(
        TransportError::OpenPartition {
            topic: "t".to_string(),
            partition: -4,
            cause: "x".to_string()
        }
        .message(),
        "failed to open partition t:-4"
    );
    assert_eq!(
        TransportError::Produce {
            topic: "t".to_string(),
            partition: 10,
            cause: "x".to_string()
        }
        .message(),
        "failed to produce to t:10"
    );
}

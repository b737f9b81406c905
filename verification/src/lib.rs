//! Message transport for microservices: patterns and JSON payloads over Kafka and
//! over gRPC.
//!
//! - [`wire`]: the format of Kafka records, and the metadata that carries the
//!   address of a reply
//! - [`client`] and [`consumer`]: the two sides of a request over Kafka
//! - [`transport`]: records, and the connection that is made when it is needed
//! - [`dispatch`]: the gRPC channel, both sides of it
//! - [`config`]: connection parameters and subscriptions
//!
//! The library decides what is sent, to whom it goes and what comes of it. Its user
//! connects, reads and writes, and runs the handlers.

pub mod client;
pub mod config;
pub mod consumer;
pub mod dispatch;
pub mod envelope;
pub mod json;
pub mod table;
pub mod text;
pub mod time;
pub mod transport;
pub mod wire;

pub use client::KafkaMicroserviceClient;
pub use config::{
    subscription, KafkaCompression, KafkaConfig, KafkaStartOffset, KafkaSubscription,
};
pub use consumer::{KafkaConsumerHandle, KafkaMicroserviceConsumer, KAFKA_TRANSPORT};
pub use dispatch::{GrpcDispatchService, GrpcMicroserviceClient, GRPC_TRANSPORT};
pub use envelope::{EventEnvelope, MessageEnvelope, MicroserviceContext, TransportMetadata};
pub use transport::KafkaTransport;

use nestforge_transport::dispatch::{
    accept_event, accept_message, accept_payload, lazy_target, map_dispatch_error,
    metadata_from_map, metadata_to_map, normalize_addr, target, AddressError, EmitRequest,
    EmitResponse, GrpcClientError, GrpcCode, InvokeRequest, InvokeResponse,
};
use nestforge_transport::time::{elapsed_nanos, next_correlation_id, stamp, unique_suffix};
use nestforge_transport::{GrpcDispatchService, GrpcMicroserviceClient, TransportMetadata};
use serde_json::Value;
use std::time::{Duration, UNIX_EPOCH};
use tonic::transport::Endpoint;

fn pair(key: &str, value: &str) -> (String, String) {
    (key.to_string(), value.to_string())
}

fn service() -> GrpcDispatchService<u8, u16> {
    GrpcDispatchService::new(1, 2)
}

fn client() -> GrpcMicroserviceClient<u32> {
    GrpcMicroserviceClient::connect_lazy(lazy_target("127.0.0.1:50051".to_string()).ok().unwrap(), 3)
        .with_default_metadata(TransportMetadata::new().insert("env", "test").insert("a", "1"))
}

#[test]
fn address_without_scheme_gets_http() {
    assert_eq!(
        normalize_addr("127.0.0.1:50051".to_string()),
        "http://127.0.0.1:50051"
    );
    assert_eq!(
        normalize_addr("https://host:1".to_string()),
        "https://host:1"
    );
    assert_eq!(
        normalize_addr(normalize_addr("host".to_string())),
        "http://host"
    );
    assert_eq!(normalize_addr(String::new()), "http://");
}

#[test]
fn target_is_prepared_for_the_normalized_address() {
    let target = target("127.0.0.1:50051".to_string()).ok().unwrap();
    assert_eq!(target.addr, "http://127.0.0.1:50051");
    assert_eq!(target.endpoint.uri().to_string(), "http://127.0.0.1:50051/");
}

#[test]
fn client_is_made_once_its_channel_is() {
    let client = GrpcMicroserviceClient::connect(target("a".to_string()).ok().unwrap(), Ok(9u8))
        .ok()
        .unwrap();
    assert_eq!(client.addr(), "http://a");
    assert_eq!(*client.client(), 9);
    let error: GrpcClientError = GrpcMicroserviceClient::<u8>::connect(
        target("a".to_string()).ok().unwrap(),
        Err(Endpoint::from_shared("a b".to_string()).err().unwrap()),
    )
    .err()
    .unwrap();
    assert_eq!(
        error.message(),
        "failed to connect gRPC channel to `http://a`"
    );
}

#[test]
fn invalid_address_is_refused() {
    let error = target("not an address".to_string()).err().unwrap();
    assert_eq!(
        error.message(),
        "invalid gRPC address `http://not an address`"
    );
    match error {
        GrpcClientError::InvalidAddress {
            addr,
            cause: AddressError::Endpoint(cause),
        } => {
            assert_eq!(addr, "http://not an address");
            assert_eq!(cause.to_string(), "invalid URI");
        }
        other => panic!("unexpected error: {other:?}"),
    }
    match lazy_target("not an address".to_string()).err().unwrap() {
        GrpcClientError::InvalidAddress {
            addr,
            cause: AddressError::Uri(cause),
        } => {
            assert_eq!(addr, "http://not an address");
            assert_eq!(cause.to_string(), "invalid uri character");
        }
        other => panic!("unexpected error: {other:?}"),
    }
}

#[test]
fn metadata_survives_the_map_in_any_order() {
    let metadata = TransportMetadata::new().insert("b", "2").insert("a", "1");
    let entries = metadata_to_map(&metadata);
    assert_eq!(entries, vec![pair("a", "1"), pair("b", "2")]);
    assert_eq!(metadata_from_map(entries), metadata);
    assert_eq!(
        metadata_from_map(vec![pair("b", "2"), pair("a", "1")]),
        metadata
    );
    assert_eq!(metadata_from_map(vec![]), TransportMetadata::new());
}

#[test]
fn default_metadata_reaches_the_handler() {
    let request = client()
        .send("users.count".to_string(), Ok(b"[1]".to_vec()))
        .unwrap();
    assert_eq!(request.pattern, "users.count");
    assert_eq!(request.payload, b"[1]".to_vec());
    let mut arrived = request.clone();
    arrived.metadata.reverse();
    let (envelope, context) = service().invoke(arrived).unwrap();
    assert_eq!(envelope.pattern, "users.count");
    assert_eq!(envelope.payload, Value::Array(vec![Value::from(1)]));
    assert_eq!(context.transport, "grpc");
    assert_eq!(context.pattern, "users.count");
    assert_eq!(
        context.metadata,
        TransportMetadata::new().insert("env", "test").insert("a", "1")
    );
    assert_eq!(envelope.metadata, context.metadata);
}

#[test]
fn event_reaches_its_handlers() {
    let request = client()
        .emit("users.created".to_string(), Ok(b"7".to_vec()))
        .unwrap();
    let (envelope, context) = service().emit(request).unwrap();
    assert_eq!(envelope.pattern, "users.created");
    assert_eq!(envelope.payload, Value::from(7));
    assert_eq!(context.transport, "grpc");
    assert_eq!(service().emit_response(Ok(())), Ok(EmitResponse {}));
    let status = service().emit_response(Err("boom".to_string())).unwrap_err();
    assert_eq!(status.code, GrpcCode::Internal);
    assert_eq!(status.message, "boom");
}

#[test]
fn payload_that_is_no_json_is_refused() {
    let status = service()
        .invoke(InvokeRequest {
            pattern: "p".to_string(),
            payload: b"{".to_vec(),
            metadata: vec![],
        })
        .unwrap_err();
    assert_eq!(status.code, GrpcCode::InvalidArgument);
    assert_eq!(
        status.message,
        "invalid JSON payload: EOF while parsing an object at line 1 column 1"
    );
    let status = service()
        .emit(EmitRequest {
            pattern: "p".to_string(),
            payload: vec![],
            metadata: vec![],
        })
        .unwrap_err();
    assert_eq!(status.code, GrpcCode::InvalidArgument);
    assert_eq!(accept_payload(Ok(Value::Null)), Ok(Value::Null));
}

#[test]
fn call_is_answered_with_the_value_or_the_failure() {
    let response = service().invoke_response(Ok(Value::from(3))).unwrap();
    assert_eq!(response.payload, b"3".to_vec());
    let status = service().invoke_response(Err("boom".to_string())).unwrap_err();
    assert_eq!(status, map_dispatch_error("boom".to_string()));
    assert_eq!(status.code, GrpcCode::Internal);
    assert_eq!(status.message, "boom");
}

#[test]
fn handler_is_given_all_the_metadata() {
    let entries = vec![pair("nestforge.reply_topic", "t")];
    let (envelope, context) = accept_message("p".to_string(), Value::Null, entries.clone());
    assert_eq!(
        context.metadata,
        TransportMetadata::new().insert("nestforge.reply_topic", "t")
    );
    assert_eq!(envelope.metadata, context.metadata);
    let (envelope, context) = accept_event("p".to_string(), Value::Null, entries);
    assert_eq!(envelope.metadata, context.metadata);
    assert_eq!(context.pattern, "p");
}

#[test]
fn client_and_service_give_back_what_they_are_made_of() {
    assert_eq!(*service().container(), 1);
    assert_eq!(*service().registry(), 2);
    assert_eq!(client().addr(), "http://127.0.0.1:50051");
    assert_eq!(client().clone().addr(), "http://127.0.0.1:50051");
    assert_eq!(*service().clone().registry(), 2);
    assert_eq!(*client().client(), 3);
}

#[test]
fn client_tells_what_came_of_a_call() {
    let client = client();
    let response = InvokeResponse {
        payload: vec![1, 2],
    };
    assert_eq!(client.finish_send(Ok(response)).unwrap(), vec![1, 2]);
    assert_eq!(
        client.finish_send(Err("boom".to_string())).unwrap_err().message(),
        "gRPC invoke failed: boom"
    );
    assert!(client.finish_emit(Ok(EmitResponse {})).is_ok());
    assert_eq!(
        client.finish_emit(Err("boom".to_string())).unwrap_err().message(),
        "gRPC emit failed: boom"
    );
    assert_eq!(
        client.send("p".to_string(), Err("x".to_string())).unwrap_err().message(),
        "failed to serialize outbound message payload"
    );
    assert_eq!(
        client.emit("p".to_string(), Err("x".to_string())).unwrap_err().message(),
        "failed to serialize outbound event payload"
    );
    assert_eq!(client.response(Ok(5)).unwrap(), 5);
    assert_eq!(
        client.response::<u8>(Err("x".to_string())).unwrap_err().message(),
        "failed to deserialize outbound message response"
    );
}

#[test]
fn time_before_the_epoch_counts_as_none() {
    let later = UNIX_EPOCH + Duration::from_millis(1500);
    assert_eq!(elapsed_nanos(later.duration_since(UNIX_EPOCH)), 1_500_000_000);
    assert_eq!(elapsed_nanos(UNIX_EPOCH.duration_since(later)), 0);
}

#[test]
fn ids_carry_the_numbers_of_their_counter() {
    assert_eq!(stamp(0, 0), "0-0");
    assert_eq!(stamp(1700000000123456789, 42), "1700000000123456789-42");
    let mut counter: u64 = u64::MAX;
    let last = next_correlation_id(&mut counter);
    assert_eq!(counter, 0);
    let first = next_correlation_id(&mut counter);
    assert_eq!(counter, 1);
    assert!(last.ends_with("-18446744073709551615"));
    assert!(first.ends_with("-0"));
    assert_ne!(first, last);
    let suffix = unique_suffix(&mut counter);
    assert!(suffix.ends_with("-1"));
    let nanos: u128 = suffix.split('-').next().unwrap().parse().unwrap();
    assert!(nanos > 1_600_000_000_000_000_000);
}

# nestforge_transport

Message transport for microservices: requests and events go by pattern, with JSON
payloads, over Kafka or over gRPC.

- `src/` is the library, verified with Verus. It decides what is sent, to whom it goes
  and what comes of it: the wire format of records, the address of a reply, the requests
  that wait for one, what is done with a record that comes in, the connection that is
  made when it is needed, and both sides of the gRPC channel.
- `app/` runs the library over `rskafka` and `tonic`.
- `tests/` runs the library on concrete values.

What the library takes from other crates on trust (`serde_json`, `tonic`, `chrono` and
parts of `std`) is stated at the functions that call them, in `json.rs`, `dispatch.rs`,
`time.rs` and `wire.rs`; `config.rs` declares two enums of `rskafka`.

A request travels as a record whose header `nestforge-kind` says `message`. Its value is
an envelope in JSON, and the envelope's metadata carries the reply topic and the id of
the request. The answer comes back to that topic as a record of kind `reply` or
`reply-error`, under the same id. `request_is_answered` in `consumer.rs` states it.

# sz-sdk-rust-grpc

A gRPC client for the [Senzing](https://senzing.com/) SDK whose core is
written in Verus and verified.

## Layout

- `src/` — the verified library: the SDK's error type and the table that maps
  Senzing error codes to it, the retry policy, the conversion of failed gRPC
  calls into errors, connection settings and the factory's lifecycle, the
  configuration state and its data source registry (including sorted
  differences between registries), and the parsing of every JSON reply the
  SDK's convenience methods read (statistics, entities, search results
  ranked by score, repository, performance, version and license details),
  plus the bookkeeping of batch and redo runs.
- `app/` — the client around it: the tokio runtime, the protobuf messages and
  the gRPC calls, streamed exports, connecting, `with_retry`, success rates
  and the serializable forms of the SDK's types.
- `tests/` — tests of the library.

JSON is parsed by `serde_json`; the library reads the parsed document as a
`json::Json` value. Durations are kept in the library's own
`duration::Duration`, which has the standard library duration's range.

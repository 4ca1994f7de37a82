# jsonrpc

A verified client core for SPDK JSON-RPC calls that an io-engine carries over
its gRPC `JsonRpc` service.

- `src/method.rs`: the `JsonRpcMethod` trait and the `bdev_set_qos_limit`
  request, whose JSON text the library frames itself.
- `src/exchange.rs`: the steps of a call (start, gRPC exchange, decode) as
  functions from the outcome of each outside step to the request to send or
  the answer, with `SvcError` for each failure.
- `src/laws.rs`: what a whole call answers, proved over the steps.
- `src/json.rs`: decimal numbers, JSON `null`, and the calls into serde_json.
- `app/`: the gRPC channel and the exchange itself (tonic), around the library.

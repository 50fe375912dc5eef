# nautilus_aster

The decision logic of an Aster futures venue adapter, and of the multi-IP
client pools it runs on, written in Verus with its contracts proved.

## Layout

- `src/` — the verified library.
  - `enums.rs`, `model.rs` — venue and trading enums, their wire strings and
    conversions; instrument IDs and bar specifications.
  - `urls.rs`, `symbol.rs`, `channels.rs` — endpoint resolution, symbol and
    channel naming.
  - `decimal.rs`, `text.rs` — decimal and integer text, string helpers.
  - `instrument.rs`, `parse.rs` — exchange-info symbols and their parsing into
    perpetual instruments; bar intervals.
  - `rate_limit.rs`, `http.rs` — quotas, request queries, signatures' inputs,
    URLs and error answers of the HTTP client.
  - `orders.rs`, `futures.rs` — order, query and cancellation requests, and the
    handling of their answers.
  - `streams.rs` — classification of WebSocket frames and the bookkeeping of
    subscription requests.
  - `pool.rs` — the instrument-to-slot hash and the slot pickers of the pools.
  - `factories.rs` — client factories.
  - `error.rs` — error types and their retryable / fatal classification.
- `tests/` — tests of the library on concrete values.
- `app/` — the runtime around it: configuration, JSON and query encoding,
  the stream task, pool dispatch and the HTTP request flow.

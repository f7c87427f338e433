# binance_spot_rs

Request and stream specifications for the Binance Spot API, verified with
Verus.

Each REST/WebSocket request is a builder (`OrderSpec`, `KlinesSpec`,
`ExchangeInfoSpec`, ...) that collects parameters and checks them in
`build`. The contract of every `build` states, through the spec function
`validation`, exactly which parameters are refused and with which
`InvalidParameter`, and that on success the same parameters come back as a
`Validated` specification. Stream specifications (`TradeStreamSpec`,
`KlineStreamSpec`, ...) state their stream names, checks, buffer sizes and
authentication needs.

Layout:

- `src/types/requests/` — the request builders; `common.rs` holds the checks
  they share (symbol lists in JSON, time zones, window sizes, kline
  intervals, positive amounts).
- `src/streams/specs/` — the stream specifications and the `StreamSpec` trait.
- `src/text.rs`, `src/json.rs`, `src/decimal.rs` — the text model (white
  space, trimming, decimal numbers), the JSON calls and the fixed-point
  decimal, with the few calls into `std`, `serde_json` and `rust_decimal`
  whose contracts are trusted.
- `src/laws.rs` — properties that hold of every request that passes its
  checks, and agreements between request checks and stream parameters.
- `app/` — serde forms of the specifications and stream events,
  `rust_decimal` conversions and `anyhow` errors.
- `tests/` — tests on concrete values.

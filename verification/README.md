# tossinvest_sdk

An unofficial client for the Toss Securities Open API, written in Verus.

- `src/` is the verified library: the domain models; for every endpoint the
  request it sends (`adapter::market_data`, `adapter::trading`,
  `adapter::account`, `adapter::conditional_order`): method, path, query, body,
  and whether it carries the `AccountSeq` header; the client configuration
  (base URL, default account); the OAuth2 token cache with early refresh; and
  the mapping of error answers to `SdkError`, which reads the body with
  `serde_json`.
- `app/` is the HTTP side: `HttpClient` sends the requests with `reqwest`,
  encodes and decodes JSON with `serde` (through the copies in `app/wire.rs`),
  and implements the async port traits.
- `tests/` runs the library on concrete values.

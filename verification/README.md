# lending_indexer

A client library for the lending indexer's HTTP API, verified with Verus.

- `src/` is the verified library: the offer-list query encoding
  (`client/query.rs`), the path and query of each endpoint
  (`client/requests.rs`), the client configuration and base URL handling
  (`client/config.rs`), the mapping of failed responses and HTTP failures onto
  `IndexerClientError` (`client/error.rs`), the trusted boundary to reqwest
  (`client/transport.rs`), and the wire text forms (`text.rs`).
- `app/` sends the planned requests with reqwest, awaits the responses and
  decodes their JSON bodies with serde.
- `tests/` runs the library on concrete values.

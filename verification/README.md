# service-common

Tracing and metrics of HTTP requests, by the OpenTelemetry semantic conventions, and the two
services that use them.

- `src/` is the library. It reads requests and responses as plain values, and decides which spans
  are started, what is done to them, and what is measured under which attributes. Verus proves its
  contracts. What is believed of outside crates stands in `src/outside.rs`.
- `tests/` runs the library with the real crates.
- `app/` does what the library decides: it implements the middleware of tower and of
  reqwest-middleware, and runs `api-service` and `backend-service`.

## migrations

- scaffold migration (up only): `cargo sqlx migrate add -s {name}`
- scaffold migration (up/down): `cargo sqlx migrate add -s -r {name}`
- create database and run migrations `cargo sqlx database setup --database-url {connection-string}`

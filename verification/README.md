# aptabase-rs

A client for Aptabase analytics whose logic is verified with Verus.

- `src/` is the verified library: app-key parsing and endpoint selection (`config`), system
  metadata (`sys`), session ids and the four-hour session lifecycle (`session`), JSON values and
  the event documents sent to the service (`event`), the event queue and the decisions of a flush — batches of at most 25
  events, retry after transport failures and 5xx replies, discard after other errors
  (`dispatcher`), the client and its builder (`client`, `builder`), the default panic event
  (`panic_report`), and properties that span several calls (`laws`).
- `app/` wraps the library for applications: it probes the host, shares the client behind a lock,
  sends batches with Reqwest on Tokio, flushes periodically and installs panic hooks.
- `tests/` runs the library on concrete values.

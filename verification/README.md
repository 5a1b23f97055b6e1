# trustify

Verified core of the advisory handling of a software-supply-chain service.

- `src/` (Verus): SHA-256 digests in hexadecimal, document keys
  (`sha256:<hash>`, `urn:uuid:<uuid>`), the check of an uploaded CSAF
  document (JSON, CVSS v3 vectors, CSAF), the get-or-create protocols that
  ingest advisories, their vulnerabilities and their package links (each a
  small state machine: the caller performs the database request that a step
  names and hands back the answer), the laws of those protocols over a model
  of the tables (in any well-formed state that holds a row, a lookup of its
  key finds it, an ingest of its key returns it and one of another key
  returns another id; ingestion keeps the tables well formed and keeps their
  rows), organization summaries, and the decisions of the HTTP endpoints.
- `app/` (plain Rust): actix-web handlers and the loop that runs the
  protocols against a database store.
- `tests/`: the scenarios, run against an in-memory store.

# appcontrol_repository

The repository layer of the AppControl backend, split in two:

- `src/` — the verified library. It holds the decisions and the data
  shaping that surround the database queries: the aggregation of cluster member
  states into a component state, the merge of partial member updates, the
  pairing of members with their cached state, numbered bind placeholders for
  `IN` lists, the built-in catalog types, API-key hashing, certificate pinning,
  the reading of identifiers, RFC 3339 times and JSON documents that SQLite
  hands back as text (history rows among them), the grouping of agent member
  configurations by component, row conversions, and the repository handles. `cluster_laws.rs` states the
  laws of the aggregation and of the update merge.
- `app/` — ordinary Rust around the library: the sqlx queries (PostgreSQL and
  SQLite) that read rows, hand the library plain values, and write back what it
  computes.
- `tests/` — tests of the library on concrete values.

Timestamps travel through the library as `db::Timestamp` (seconds and
nanoseconds since the epoch); identifiers as `uuid::Uuid`; JSON documents as
`serde_json::Value`, read from and written to text by serde_json.

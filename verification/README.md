# Shiba

The control plane of streaming tables inside PostgreSQL, as a verified library.

PostgreSQL keeps the typed rows, the arrangements and the pending output. The
library owns the scalar control facts: which phase a stage is in, which rows it
reads next, how much work a step may do, which statement runs, and whether what
the statement returned may be committed.

- `src/admission.rs` admits batches of source events.
- `src/ddl.rs` decides what surrounds utility statements.
- `src/config.rs` holds the settings and their ranges.
- `src/session.rs` is the conversation with the database: requests, replies, and
  the rows and cells they carry.
- `src/execution/` steps the operators: `linear` (Scan, Filter, Project),
  `distinct`, `join` and `aggregate`. Each has a machine or planner, the
  statements it runs, the storage of its continuation, the order in which it asks
  for them, its provisioning, and its laws.
- `src/text.rs`, `src/sql.rs`, `src/postgres.rs` and `src/database.rs` are the
  shared vocabulary: texts, statements, identifiers and scalar results.
- `app/` answers the requests from a database session and stores the outcome.

A plan opens with its first request. Every reply resumes it, and it asks again,
ends with what is to be committed, or fails. No plan touches the database itself.

# track_store

The track repository of a lyrics server, verified with Verus.

- `src/entities.rs`: tracks, lyrics, rows and statement parameters; the
  assembly of a track from a row.
- `src/queries.rs`: the SQL text, the builders of the statements whose shape
  depends on the request (lookup by metadata, keyword search), and the proofs
  that every `?` placeholder gets a parameter.
- `src/text.rs`: counting whitespace-separated words, joining, counting
  placeholders.
- `src/track_repository.rs`: the reads and writes against SQLite, and the
  verified assembly of their answers.
- `src/submit_isrcs.rs`: recording the ISRCs a client submits.
- `src/clock.rs`: the current time, before or after 1970, in the form stored.
- `src/sqlite.rs`: the trusted boundary to `rusqlite`, `chrono` and the system
  clock, with the records of what SQLite answered to which statement.
- `app/lib.rs`: the axum route, the serde copies of the request and response
  types, and the entry points that take durations as floating-point seconds.

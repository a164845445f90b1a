# transcript-ingest

Turns the entries of a session transcript (one JSON object per line) into
rows for an analytics database: one `entries` row per entry, a row in the
table of the entry's kind, and rows in child tables for content blocks, usage
iterations, hook runs, diagnostics files and invoked skills. Every cell is a
JSON value; index 0 of every row holds the `entry_id` placeholder (NULL),
filled in by whoever writes the rows.

Layout:

- `src/` — the verified library (Verus).
  - `json.rs` — the JSON value model and its compact text.
  - `types.rs` — the transcript entry types.
  - `cells.rs`, `encode.rs` — single cells, and the JSON images of nested
    structures.
  - `variants.rs` — the row builders for each kind of entry.
  - `parse.rs` — the `entries` row, the transcript header, the line-by-line
    state of one file, and `parse_lines`, which gathers a whole file from
    its read line events.
  - `lines.rs`, `paths.rs` — cleaning a line; what a file's path and
    modification time tell.
  - `laws.rs` — properties proved of every entry and every file.
- `tests/` — tests of the library.
- `app/` — reading files from disk, the serde form of the entry types, and
  the conversions between the two forms.

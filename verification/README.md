# scribe

A personal productivity tool — projects, tasks, todos, time tracking,
reminders, an inbox of quick captures and linked notes — whose core is a
library verified with Verus.

## Layout

- `src/` — the verified library.
  - `store/` — the in-memory store: one table per entity, each keeping unique
    slugs and fresh ids, plus the links between notes.
  - `domain/` — the records, their statuses and priorities, slug generation and
    the `[[slug]]` link grammar.
  - `ops/` — the operations on each entity (create, list, update, archive with
    cascade, restore, delete, timers, reminders, inbox processing, notes), and
    `ops/laws.rs`, the properties that tie them together.
  - `cli/` — every command's arguments and what running it against the store
    yields; `mcp.rs` — the tools and resources offered to assistants.
  - `datetime.rs`, `report.rs`, `service.rs`, `config.rs`, `auth.rs` — reading
    times, report windows and durations, the background service's files and
    verdicts, the configuration, the sync server's token check.
  - `clock.rs`, `text.rs` — the trusted edges: the clock, chrono's formatting
    and a few standard-library character functions.
- `tests/` — tests run against the compiled library.
- `app/` — the `scribe` program: command-line parsing, the SQLite file (whose
  FTS5 index ranks `note list --search` by relevance), the configuration file, printing, the editor, the background service and
  desktop notifications.

# vibe_kanban_core

The verified core of a kanban board and agent-workspace server, written in
Verus.

`src/` holds what the server decides, each function with a contract that
Verus proves:

- `workspace` — workspace records, reading status rows, deriving a
  workspace's name from its first prompt (`Workspace::truncate_to_name`),
  naming every unnamed workspace of a listing, and resolving a container
  reference by path.
- `naming` — the specification of trimming and name derivation, with its
  laws.
- `queries` — the SQL texts and bound values of the workspace queries whose
  shape depends on their input (status listing, first prompts, batched name
  updates, partial workspace update), with laws that every placeholder gets
  exactly one value, that the single renaming statement gives each listed
  workspace its name and leaves the others alone, and that a partial update
  changes only what it is given.
- `summary` — assembling the sidebar summary of each workspace from the
  facts gathered about all of them.
- `kanban` — the kanban records, the defaults of created records, the patch
  semantics of updates (with laws: empty updates change nothing but the
  update time, repeating an update changes nothing more), bulk updates, and
  the status of lookups and deletes.
- `ids`, `clock`, `json` — record ids (fresh random UUIDs), timestamps and
  JSON text, through the `uuid`, `chrono` and `serde_json` crates.

`app/` is the HTTP and SQLite plumbing around the core (axum routes, sqlx
queries, the summary cache), and `tests/` runs the core on concrete values.

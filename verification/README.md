# comemory store

The storage layer of comemory: the SQLite mirror of memories, code symbols,
documents, graph edges and learning telemetry.

- `src/` is the verified library. It holds the decisions the store makes and
  the statements it runs, each with a contract proved by Verus: the schema
  migration table and its preflight guard (pending migrations, forward
  compatibility, mandatory snapshots and snapshot pruning), the FTS5 query
  builders, the row encoders and decoders, the list/page/filter statements,
  the graph-edge and code-graph queries, generation activation, the purge and
  re-save statement plans, and the batch plans that keep every statement
  under SQLite's bound-parameter limit. Public proof functions (`lemma_*`)
  state the laws proved about them.
- `app/` opens connections and runs a part of those statements with
  `rusqlite`, touches the file system and the clock, and carries serde copies
  of the rows that travel as JSON. Some statements the library builds have no
  runner there yet.
- `tests/` exercises the library on concrete values.

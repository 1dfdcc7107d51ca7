# couchbase_lite

A Rust binding to couchbase-lite-core, the embedded, syncable NoSQL engine, whose
decisions are proved with Verus.

The binding is split in two:

- `src/` is the verified library. It holds everything the binding decides: how values of
  the serde data model are written as Fleece encoder calls and read back from Fleece
  values, which revision wins a conflict and how saving retries after one, how documents,
  queries and indexes are read, the options and states of replication, and the state
  machines of the WebSocket transport (opening a socket, its read loop, and closing it).
  Each public function states its result in its contract; the laws that relate functions
  (reading back what was written, well-nested encoder calls, the symmetry of conflict
  resolution, and others) are proof functions.
- `app/` is the glue that the verifier does not see: the C interface of the engine, the
  serde traits, and the tokio tasks that carry replication. It performs what the library
  decides and hands the results back as plain values.

`tests/` exercises the library on concrete values.

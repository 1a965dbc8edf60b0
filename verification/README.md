# rocksdb

A RocksDB binding whose logic is verified with Verus.

- `src/` is the library.  It holds what the binding decides: which column
  families an opened database holds and how their handles are kept, how
  paths, names and option texts are checked before they reach the engine,
  how iterators step and stop, the bounds of prefix scans, how engine error
  messages are classified, how property values are read as integers, what
  the callbacks hand back to the engine (compaction filters, merge operators,
  compaction services, file system inspectors), and the option records the
  engine is configured from.  The engine itself stands behind traits
  (`DBInner`, `DBRawIteratorHandle`, `DBWalIteratorHandle`,
  `BackupEngineHandle`, `CheckpointHandle`, `MemoryConsumersHandle`): each
  method performs one call of the RocksDB C API, and the library decides on
  whatever comes back.  Each call's answer is related to its arguments by a
  relation of the trait (`put_reply`, `get_reply`, ...), so that the
  library's contracts say exactly which arguments reach the engine and what
  is made of its answer.
- `app/` is a small program, and the engine behind those traits: the calls
  into `librocksdb-sys`, the conversion of option records into the engine's
  option objects, and the C callbacks.
- `tests/` runs the library against an in-memory engine.

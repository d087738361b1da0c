# forge-storage

Canonical storage rules of Forge, a local-first control plane for durable AI
engineering work, written in Verus with their contracts proved.

- `src/` is the verified library: fenced Run message ordering and the
  observed/desired Run lifecycle, dispatch and admission gates, Communication
  and resolver ownership checks, Gateway authorization and message dedupe,
  bounded outbox claims, required-hook and integration-review acceptance,
  file-snapshot finishing, resolver-route and escalation revisions, Run
  reads and their owner rules,
  knowledge revision rules,
  the schema contract, and the evidence pipeline (exact-byte secret redaction,
  chunking, spool accounting and on-disk layout, upload verification).
  Database, filesystem and object-store access never happen here; the library
  decides what those effects mean and which values they may carry.
- `app/` is ordinary Rust around it: the PostgreSQL, filesystem and S3
  adapters that perform the reads and writes, the serde/thiserror/clap forms
  of the library's types, and the `forge-migrate` entry point.
- `tests/` exercise the library on concrete values.

Not covered here: the storage of encrypted credentials and proxy keys,
recovery holds and boot reconciliation, the Git proposal, candidate-review and
integration loop (beyond its review and dispatch rules), Inbox threads and
messages, system jobs, runtime inputs, file-snapshot queues, the dispatch
queue's enqueue and claim queries, and Project, Pipeline, Task and Employee
snapshot writes. Those adapters read and write snapshots of Forge's domain
model, which is a separate crate; this crate holds the storage rules they
rely on where those rules stand apart from that model.

Outside crates used by the library sit behind a few trusted items, each with a
doc comment stating what its contract assumes: `sha2` (SHA-256), `uuid`
(parsing), `object_store` (object path rules, stated in full) and `zeroize` (secret wiping).

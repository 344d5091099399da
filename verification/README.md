# covey

Covey coordinates agents working on a shared repository: meta-tasks split into
subtasks, claims and leases on them, reviews, an apply queue with its gate, and
the repo-ops authority facts (scopes, locks, git context) an agent may act on.
Work enters from OpenSpec changes, bd (beads) databases and confirmed prose.

The library is written in Verus. Each public function states what it returns in
its `ensures`, over spec functions and views, and Verus proves it; the laws that
span several calls (idempotent recording, final states, counts that partition an
import, one active queue item per subtask, and others) are public proof
functions.

## Layout

- `src/` — the verified library.
  - `model.rs`, `status.rs`, `observability.rs` — the records and their views.
  - `meta_task.rs`, `session.rs`, `reservation.rs`, `maintenance.rs`, `queue.rs`,
    `apply_gate.rs`, `archive_cleanup.rs`, `operator_blocker.rs`,
    `vcs_projection.rs` — the decisions of each operation: given the stored rows
    an operation reads, what it refuses, and for several (enqueue, cancel,
    maintenance, operator blockers, bd import) the records it writes. Running
    these against a database is not part of this crate.
  - `current_work.rs` — the current-work projection of an OpenSpec change or a
    prose taskset, with its blockers and repair playbooks.
  - `authority.rs`, `snapshot.rs`, `repoops.rs` — repo-ops authority facts and
    the lock facts derived from reservations.
  - `openspec.rs`, `openspec_import.rs`, `bd.rs`, `prose_intake.rs` — parsing,
    identifiers and import plans for the three intake paths.
  - `digest.rs`, `text.rs`, `validate.rs`, `error.rs` — digests (BLAKE3, through
    one trusted call), text helpers, field checks and errors.
- `tests/` — tests run against the compiled library.
- `app/` — plain Rust around the library: JSON wire forms of the authority,
  queue and subtask-view records, the SQLite reader of a bd database, and the
  reader of an OpenSpec change on disk.

Compiling an OpenSpec change into a mission (the Better Droid compiler) is not
part of this crate: the reader of a change takes the digest bindings that a
compiled mission recorded as an argument, and loading a compiled mission
stands nowhere here.

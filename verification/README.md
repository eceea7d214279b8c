# puread_android

The Android side of a local ad-removal module for rooted devices: argv-only
command adapters (`pm`, `appops`, `settings`, `getprop`, `chattr`, `lsattr`,
`chcon`), file actions on app-private paths that back up
what they change and record how to restore it, and profile rules for AppOps,
components and ROM settings, including `shared_prefs` booleans.

Layout:

- `src/` is the library, written in Verus. Every decision is a function with a
  contract: which argv is built and which input is refused, which target a file
  action may touch, what it records before it mutates and how that record is
  undone, how a profile rule reads the device's answers and what it writes to
  the ledger. An execution of a file action is a step machine
  (`file_actions/transaction.rs`): the caller performs each step it names and
  hands back what came of it. The profile executor, the immutable-attribute
  attempt and the `chcon` step reach the runner and the ledger only through a
  recorder (`profiles/device.rs`, `chattr/command.rs`, `command_runner/runner.rs`)
  that keeps a log of every call, in order, with its answer; their contracts
  state that log exactly, so the record always precedes the change it
  undoes. The laws that span several calls stand in the `laws.rs` file of
  each module as public proof functions.
- `src/secure_path.rs` decides which directory components a symlink-free walk
  opens; `app/secure_fs.rs` performs the walk with `rustix`.
- `app/` holds what runs outside the verifier: the process runners, file-system
  observation and mutation, the serde form of ledger records, and error types
  that display themselves.
- `tests/` exercises the library on concrete values.

Outside crates called from `src/`: `quick-xml` (reading and writing the
preferences XML), `sha2` (backup hashes) and `time` (ledger timestamps), each
behind a small trusted wrapper whose doc comment says what it claims.

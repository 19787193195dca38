# pawl

A resumable step sequencer: a workflow of shell steps whose state is the
replay of an append-only JSONL event log (`state = replay(log)`), with gates,
automatic retries, manual verification, task dependencies, a terminal
dashboard and a small HTTP status server.

## Layout

- `src/` — the library, verified with Verus. Every function carries a
  contract over mathematical models (`Seq`, `Map`, views of the types), and
  the properties that span several functions stand as `law_*` proof
  functions next to the code they speak of.
  - `model/` — events and their replay, task states, workflow
    configuration, task definitions (front matter parsing).
  - `cmd/` — the decisions of each command: what `start` does next with a
    step's outcome, what `done`, `stop` and `reset` accept, status routing
    hints, `wait` rounds, log and event selection, the HTTP routes and the
    event feed of `serve`.
  - `tui/` — the dashboard's state, reducer, key bindings and texts.
  - `util/`, `viewport/` — variable expansion, branch names, and the tmux
    commands together with the interpretation of their output.
  - `text.rs` — string helpers with their specifications.
- `app/` — the `pawl` program: argument parsing, files, processes, tmux,
  the terminal and HTTP I/O. It calls the library for every decision.
- `tests/` — tests of the library on concrete values.

Calls into `chrono` and `indexmap` stand in the library behind small
trusted wrappers whose contracts are documented where they are declared.

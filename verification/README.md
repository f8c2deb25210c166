# codecsec

A sandboxed code-execution engine. Clients submit source code in one of
several languages; workers compile and run it inside `isolate` sandboxes with
time and memory limits, and report the outcome.

Layout:

- `src/` — the verified library (Verus):
  - `text` — whitespace, trimming, decimal rendering and parsing;
  - `models`, `errors` — submissions, statuses, errors and their reports;
  - `runtime/` — the supported languages and the registry;
  - `isolate` — the command lines given to `isolate` and what its replies mean;
  - `pool` — the pool of sandbox ids;
  - `compiler`, `executor` — compile and run settings, the run report and
    the verdict drawn from it;
  - `store` — submissions kept in memory;
  - `config`, `api` — settings, request checks, limits and answers;
  - `worker` — the worker's decisions as a state machine.
- `app/` — the HTTP server (axum, tokio): I/O, the worker tasks and JSON.
- `tests/` — tests of the library.

Notes:

- Languages: C, C++, Java, Node.js, Python, Ruby and Rust. Adding one means
  a new file under `src/runtime/` and an entry in the registry's enum and
  catalog (`src/runtime/registry.rs`). The C runtime's commands mirror the
  C++ ones: `gcc -O3 source.c -o program -lm`, then the program itself.
- Runs are limited in CPU time, wall time and memory. The
  executor does not pass address-space, stack or file-size limits to
  `isolate --run`: the run command builder takes no such options.
- The sandbox pool hands out each box id to at most one job at a time: it
  tracks the ids in use, and a box can only be given back while it is in use.
- The worker's whole run on one job is described by `worker::is_run`; the
  laws beside it state the order of the status writes, that the outcome is
  recorded once, and that the waiter is told after it.

# bifrost

Bifrost runs commands on an offline machine. A client drops task files into
a shared directory (or reaches it over SSH); a daemon on the offline machine
watches that directory, runs each task once, and writes back its result and
status. Jobs (YAML lists of tasks) run task by task; batches and GPU pools
are tracked on the daemon side; an MCP server exposes submit, status,
result and health as tools.

## Layout

- `src/` — the library, verified with Verus.
  - `text`, `numbers`, `paths` — strings, numbers and paths as sequences of
    chars, with the specifications the rest builds on.
  - `interop/` — the calls into outside crates (shell-words, uuid, chrono,
    humantime, serde_json), each behind a small trusted wrapper whose
    contract says what the crate's documentation promises.
  - `base/` — tasks, results and statuses; the shared-storage layout and
    which files belong to a task; settings and configuration with their
    validation; the SSH transport's commands; job and batch bookkeeping;
    the SQL of history queries.
  - `client/` — submitting, polling a job's tasks, results and artifacts,
    clean-up of finished tasks, and the decisions behind the MCP tools.
  - `daemon/` — the executor's plan (a checked command line run with
    `sh -c`) and result for a run and when a failed
    run is retried, the GPU monitor and scheduler (one task per GPU, the
    smallest priority value first, oldest first among equals), the heartbeat,
    the watcher's filters and debounce, and the task-file decisions of the
    server loop.
- `app/` — the program: command line, file and process I/O, the async
  server loop, the SQLite store, the MCP transport and the serde forms of
  the library's types.
- `tests/` — tests of the library.

//! The agent-facing guide.

use vstd::prelude::*;

verus! {

/// Where the guide describes the project it is printed for.
pub const PROJECT_MARKER: &'static str = "<!-- agproc:project -->";

/// The guide itself. It is part of the program, which is a single file and so
/// cannot read it from an install directory.
pub const CORE: &'static str = "# agproc — dev-time process manager\n\
\n\
agproc owns the long-running processes of this project (backend, frontend, workers...).\n\
It builds them, runs them, waits until they are actually ready, and keeps every\n\
process's state and logs under `.agproc/`, so calling it repeatedly is safe.\n\
\n\
## The five rules\n\
\n\
1. **Never start a service by hand.** `cargo run`, `pnpm dev`, `python3 main.py` bypass\n\
\x20  agproc and produce processes agproc cannot stop, log or report on. Use `agproc start`.\n\
2. **`agproc start <service>` is idempotent.** If the service is already running it prints\n\
\x20  `ALREADY RUNNING` and exits 0 *without* rebuilding or restarting anything.\n\
3. **After changing code, restart the service**: `agproc restart <service>`. That is the\n\
\x20  intended loop — edit, restart, read logs. `start` never re-runs an already-running service.\n\
4. **Trust the exit code, not the prose.** Every failure has a distinct exit code (below).\n\
5. **`agproc logs` is the service's output and nothing else.** It replays the last run-cmd's\n\
\x20  stdout/stderr (`.agproc/logs/<service>.stdout.log` and `.stderr.log`) — no agproc markers, no\n\
\x20  build output, no earlier runs. What you saw on the console of `start` is not repeated there.\n\
\n\
## The intended agent loop\n\
\n\
```bash\n\
# after editing backend code\n\
agproc restart backend            # stop + build + run + wait for the probe\n\
echo $?                           # 0 = ready, 4 = build failed, 5 = run failed, 6 = probe failed\n\
agproc logs backend --tail 60     # only when the exit code says something went wrong\n\
\n\
# frontend: same, restart after edits\n\
agproc restart frontend\n\
\n\
# what is running right now?\n\
agproc ps\n\
agproc ps --json                  # stable machine-readable form\n\
\n\
# live tail while a service starts or misbehaves\n\
agproc logs backend -f            # returns by itself when the service stops\n\
\n\
# when you are done\n\
agproc stop                       # or: agproc stop backend\n\
```\n\
\n\
`agproc start` (no service name) starts **every** service in parallel and prefixes each\n\
line with the service name, padded to the longest one so the `|` columns line up\n\
(`backend  | ...` next to `frontend | ...`); with a single service there is no prefix.\n\
\n\
## Commands\n\
\n\
| Command | What it does |\n\
| --- | --- |\n\
| `agproc start [service...]` | build (if any) + run + wait for the probe. No-op when already running |\n\
| `agproc restart [service...]` | stop, then build + run + wait for the probe |\n\
| `agproc stop [service...]` | stop a running service or cancel a build that is in progress |\n\
| `agproc ps [service...] [--json]` | what is running, with phase, pid, uptime and reason |\n\
| `agproc logs [service...] [--tail N] [-f] [--stream both\\|stdout\\|stderr]` | replay or follow the last run-cmd's output |\n\
| `agproc skills` | this document, specialised for this project |\n\
| `agproc init [--force]` | write an `agproc.toml` template |\n\
\n\
Flags worth knowing:\n\
\n\
- `agproc start --timeout-seconds N` bounds how long the *command* waits. On timeout it\n\
\x20 prints `STILL STARTING` and exits 1, but the service keeps building/running in the\n\
\x20 background — check `agproc ps` instead of starting a second one.\n\
- `agproc logs` replays the **last run-cmd's** output only, with `--tail N` keeping the last N lines\n\
\x20 of each stream. `-f` returns as soon as the service stops, so it never hangs.\n\
- Build output is shown live by `start`/`restart` but is not kept in the service logs. After a failed\n\
\x20 build, read it back from `.agproc/tmp/<service>.console.stdout` (the transient console stream).\n\
- stdout goes to agproc's stdout and stderr to agproc's stderr; with several services every line\n\
\x20 gets a `name |` prefix (name padded to the longest one). Both streams share that prefix, so read\n\
\x20 the stream — not the text — to tell them apart.\n\
\n\
## Exit codes\n\
\n\
| Code | Meaning |\n\
| --- | --- |\n\
| 0 | success: ready / already running / stopped / ps / logs / skills |\n\
| 1 | generic error, including \"the CLI gave up waiting\" |\n\
| 2 | usage error |\n\
| 3 | configuration error (missing or invalid `agproc.toml`, unknown service name) |\n\
| 4 | build failed (non-zero exit or timeout) |\n\
| 5 | run failed (the process exited before becoming ready) |\n\
| 6 | probe failed |\n\
| 7 | another start/restart is in progress for this service |\n\
| 8 | this start was superseded (the service was stopped by another agproc call) |\n\
\n\
## Reading the log markers\n\
\n\
agproc's own lines always look like `===== LIKE THIS =====`:\n\
\n\
```text\n\
===== BUILDING =====              build-cmd started\n\
===== BUILD SUCCEED =====         build-cmd exited 0\n\
===== BUILD FAILED (exit code N) =====\n\
===== RUNNING =====               run-cmd started, probing\n\
===== PROBE ATTEMPT 2/3 FAILED: connection refused (http://127.0.0.1:3000/healthz) =====\n\
===== PROBE PASSED (attempt 2) =====\n\
===== PROBE FAILED: 3 consecutive failures, last: ... =====\n\
===== RUNNING FAILED (exit code N) =====    run-cmd died before the probe passed\n\
===== SERVICE EXITED (exit code N, ready for 12s) =====   it ran, then stopped\n\
===== STOPPED =====\n\
===== ALREADY RUNNING (pid N, uptime 2m3s, ready) =====\n\
===== START IN PROGRESS (pid N, phase building) =====\n\
===== WARNING: PORT 3000 ALREADY IN USE BY pid 1234 (node) =====\n\
===== START FAILED: frontend (probe failed) =====\n\
```\n\
\n\
## Service phases (`agproc ps`)\n\
\n\
`building`, `starting` (running, not yet ready), `running`, `build failed`, `run failed`,\n\
`running failed` (it was ready and then exited), `probe failed`, `stopped`,\n\
`stale` (the supervisor was killed; the next `start` reaps the leftovers and rebuilds).\n\
\n\
## Troubleshooting\n\
\n\
- **`probe failed`** — the log names the last probe error. `connection refused`\n\
\x20 means nothing was listening yet or the process died; `HTTP 503` means the service\n\
\x20 answered \"not ready\". If the process is still alive the probe simply gave up after\n\
\x20 `failure-threshold` attempts; fix the code and `agproc restart <service>`.\n\
- **`PORT nnnn ALREADY IN USE BY pid N` followed by `PROBE FAILED: port ... is\n\
\x20 owned by ...`** — a foreign process holds the probe port. agproc refuses to report\n\
\x20 success against someone else's process. Free the port (or change it in `agproc.toml`).\n\
- **exit 7** — a start/restart is already running for that service. Wait for it, or\n\
\x20 `agproc stop <service>` first; do not fire a second `start` in a loop.\n\
- **`stale`** — the supervisor process was killed. Run `agproc start <service>`: it kills\n\
\x20 the leftover process group and builds again.\n\
- **Build output missing?** Most build tools write progress to stderr, which agproc keeps\n\
\x20 on its own stderr; run `agproc logs <service> --stream stderr` if you filtered it out.\n\
\n\
## Anti-patterns\n\
\n\
- Calling `agproc start` to force a rebuild — use `agproc restart`.\n\
- Starting services yourself and then wondering why `agproc ps` does not list them.\n\
- Editing `agproc.toml` and expecting a running service to pick it up: `ps` marks\n\
\x20 `[config changed since start]`; run `agproc restart <service>`.\n\
- Busy-looping on `agproc ps` right after `start`: `start` already waits for the probe.\n\
\n\
<!-- agproc:project -->\n\
";

} // verus!

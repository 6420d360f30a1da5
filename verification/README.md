# agproc

agproc runs the services of a project (backend, frontend, ...) during
development. It builds them, runs them, waits for a probe and keeps state and
logs under `.agproc/`, so that repeated commands are safe for humans and agents
alike.

The project has two parts.

- `src/` is the library: everything agproc decides, written and proved in Verus.
  It performs no I/O. What alternates with the outside world is a state machine:
  it is told what was seen and answers with what to do.
- `app/` is the program around it: the command line, files, processes, sockets
  and the documents that are read and written.

| module | what it decides |
|---|---|
| `config`, `config_laws` | what `agproc.toml` declares, its validation and its fingerprint |
| `envfile`, `envmap` | the environment of a service's commands |
| `paths`, `lock` | project discovery, the `.agproc/` layout, who holds a lock |
| `runner`, `runner_laws`, `session_laws` | a session: build, run, probe, and how it ends |
| `supervise` | watching a child, probing it, ending its process group |
| `probe`, `port`, `procinfo` | probe attempts, port ownership, what `/proc` says |
| `state` | the record of a session and when it is trusted |
| `logstore`, `logstore_laws`, `lines` | what is written to which log, and how logs are followed |
| `cmd` | `start`, `stop`, `ps`, `logs`, `skills`, `init` |
| `cli`, `exit` | the command line and the exit codes |
| `text`, `scan`, `bytes`, `util` | text, numbers, bytes, hashes and durations |

Public proof functions named `law_...` state what holds of all inputs, of several
calls together or of every state. What the library takes on trust are the calls
into `dotenvy`, `toml`, `serde_json` and a few functions of the standard library;
each stands behind one function whose contract says what is claimed of it.

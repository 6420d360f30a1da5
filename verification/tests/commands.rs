use agproc::cmd::ps::{config_changed, print_table, row_for};
use agproc::cmd::start::{
    settle, summary as start_summary, Failed, StartAction, StartEvent, StartStage, Started,
    Starting,
};
use agproc::cmd::stop::{
    summary as stop_summary, StopAction, StopEvent, StopOutcome, StopStage, Stopping,
};
use agproc::config::{Cmd, Probe, Service, Settings, TcpConnect};
use agproc::envmap::EnvMap;
use agproc::paths::{FsPath, Project};
use agproc::state::{Loaded, Phase, State};
use agproc::supervise::GroupSignal;

fn service() -> Service {
    Service {
        name: "api".to_string(),
        cwd: None,
        env: EnvMap::new(),
        env_file: None,
        build_cmd: None,
        build_timeout_seconds: None,
        run_cmd: Cmd(vec!["./api".to_string()]),
        stop_timeout_seconds: Some(3),
        probe: Some(Probe {
            tcp_connect: Some(TcpConnect {
                host: "127.0.0.1".to_string(),
                port: 3000,
            }),
            ..Probe::default()
        }),
    }
}

fn project() -> Project {
    Project {
        root: FsPath::from_text("/p"),
        config_path: FsPath::from_text("/p/agproc.toml"),
    }
}

fn record(phase: Phase) -> State {
    let mut state = State::new("api", 7, "fnv1a64:aa", 100, Some(55), 1000);
    state.phase = phase;
    state.child_pid = Some(200);
    state.child_pgid = Some(200);
    state.probe.kind = "tcp-connect".to_string();
    state.probe.target = "tcp 127.0.0.1:3000".to_string();
    state
}

fn found(state: State) -> Loaded {
    Loaded {
        state: Some(state),
        problem: None,
    }
}

fn live() -> Option<String> {
    Some("100 (agproc) S 1 100 100 0 -1 0 0 0 0 0 0 0 0 0 20 0 1 0 55 0 0\n".to_string())
}

// ---------------------------------------------------------------------- start
fn starting(restart: bool, timeout: Option<u64>) -> Starting {
    let (starting, actions) = Starting::new(
        "api",
        &FsPath::from_text("/p/agproc.toml"),
        "fnv1a64:bb",
        restart,
        timeout,
        0,
    );
    assert!(matches!(actions[0], StartAction::TryLock));
    assert_eq!(starting.grace_seconds, 1);
    starting
}

fn deciding(restart: bool, timeout: Option<u64>) -> Starting {
    let mut starting = starting(restart, timeout);
    starting.step(StartEvent::Locked, 0);
    starting
}

/// The last writes are forwarded, and then this.
fn drained(last: &str) -> Vec<String> {
    let mut out: Vec<String> = Vec::new();
    for _ in 0..4 {
        out.push("sleep 20".to_string());
        out.push("pump".to_string());
    }
    out.push("flush".to_string());
    out.push(last.to_string());
    out
}

fn words(actions: Vec<StartAction>) -> Vec<String> {
    actions
        .into_iter()
        .map(|action| match action {
            StartAction::Marker(line) => format!("marker {line}"),
            StartAction::Diagnostic(line) => format!("diagnostic {line}"),
            StartAction::Reap {
                pgid,
                grace_seconds,
            } => format!("reap {pgid} {grace_seconds}"),
            StartAction::StopService => "stop".to_string(),
            StartAction::SeekConsole => "seek".to_string(),
            StartAction::Pump => "pump".to_string(),
            StartAction::Flush => "flush".to_string(),
            StartAction::Sleep(ms) => format!("sleep {ms}"),
            StartAction::TryLock => "lock".to_string(),
            StartAction::ReadRecord => "read".to_string(),
            StartAction::SpawnRunner { args } => format!("spawn {}", args.join(" ")),
            StartAction::LookAgain => "look".to_string(),
            StartAction::CheckRunner { pid } => format!("check {pid}"),
            StartAction::Finish(Ok(started)) => format!("ok {started:?}"),
            StartAction::Finish(Err(failed)) => format!("failed {} {}", failed.code, failed.reason),
        })
        .collect()
}

#[test]
fn a_first_start_spawns_a_runner_and_waits_for_it() {
    let mut starting = deciding(false, Some(1));
    assert_eq!(
        words(starting.step(
            StartEvent::Record {
                loaded: Loaded {
                    state: None,
                    problem: Some("cannot parse it".to_string())
                },
                stat: None,
                group_exists: false
            },
            0
        )),
        [
            "diagnostic cannot parse it",
            "spawn __runner --config /p/agproc.toml --service api --generation 1"
        ]
    );
    assert_eq!(
        words(starting.step(StartEvent::Spawned { pid: 100 }, 0)),
        ["look"]
    );
    let look = |record: Option<State>, alive: bool, elapsed_ms: u64| StartEvent::Look {
        record,
        stat: live(),
        runner_alive: alive,
        elapsed_ms,
    };
    // Another session's record is no news.
    assert_eq!(
        words(starting.step(look(Some(record(Phase::Stopped)), true, 10), 0)),
        ["sleep 20", "look"]
    );
    let own = |phase: Phase| {
        let mut state = record(phase);
        state.generation = 1;
        Some(state)
    };
    assert_eq!(
        words(starting.step(look(own(Phase::Starting), true, 20), 0)),
        ["seek", "pump", "look"]
    );
    assert_eq!(
        words(starting.step(look(Some(record(Phase::Stopped)), true, 30), 0)),
        ["sleep 25", "pump", "look"]
    );
    assert_eq!(
        words(starting.step(look(own(Phase::Running), true, 40), 0)),
        drained("check 100")
    );
    assert_eq!(
        words(starting.step(StartEvent::RunnerStat { stat: live() }, 0)),
        ["ok Ready"]
    );
    assert_eq!(starting.stage, StartStage::Done);
}

#[test]
fn the_look_after_the_last_output_decides() {
    // The runner was there when the phase settled, and is gone 80 ms later.
    for (phase, stat, last) in [
        (
            Phase::Running,
            None,
            "failed 5 the runner disappeared before recording an outcome",
        ),
        (Phase::Running, live(), "ok Ready"),
        (Phase::BuildFailed, None, "failed 4 build failed"),
    ] {
        let mut starting = waiting();
        let mut state = record(phase);
        state.generation = 1;
        assert_eq!(
            words(starting.step(
                StartEvent::Look {
                    record: Some(state),
                    stat: live(),
                    runner_alive: true,
                    elapsed_ms: 40,
                },
                0
            )),
            drained("check 100")
        );
        assert_eq!(
            words(starting.step(StartEvent::RunnerStat { stat }, 0)),
            [last]
        );
    }

    // Another process that took over the pid is not the runner.
    let mut starting = waiting();
    let mut state = record(Phase::Running);
    state.generation = 1;
    starting.step(
        StartEvent::Look {
            record: Some(state),
            stat: live(),
            runner_alive: true,
            elapsed_ms: 40,
        },
        0,
    );
    let taken = live().map(|stat| stat.replace(" 55 ", " 56 "));
    assert_eq!(
        words(starting.step(StartEvent::RunnerStat { stat: taken }, 0)),
        ["failed 5 the runner disappeared before recording an outcome"]
    );

    // A runner that went away is asked after once more.
    let mut starting = waiting();
    let gone = |record: Option<State>| StartEvent::Look {
        record,
        stat: None,
        runner_alive: false,
        elapsed_ms: 40,
    };
    assert_eq!(words(starting.step(gone(None), 0)), drained("look"));
    let mut state = record(Phase::ProbeFailed);
    state.generation = 1;
    assert_eq!(words(starting.step(gone(Some(state)), 0)), ["check 100"]);
    assert_eq!(
        words(starting.step(StartEvent::RunnerStat { stat: None }, 0)),
        ["failed 6 probe failed"]
    );
}

/// A first start whose runner has published its record.
fn waiting() -> Starting {
    let mut starting = deciding(false, None);
    starting.step(
        StartEvent::Record {
            loaded: Loaded {
                state: None,
                problem: None,
            },
            stat: None,
            group_exists: false,
        },
        0,
    );
    starting.step(StartEvent::Spawned { pid: 100 }, 0);
    let mut state = record(Phase::Starting);
    state.generation = 1;
    starting.step(
        StartEvent::Look {
            record: Some(state),
            stat: live(),
            runner_alive: true,
            elapsed_ms: 20,
        },
        0,
    );
    assert!(matches!(starting.stage, StartStage::Waiting { .. }));
    starting
}

#[test]
fn numbers_are_derived_only_where_they_are_told() {
    // A start that is refused counts no generation and tells no age.
    let mut state = record(Phase::Building);
    state.generation = u64::MAX;
    state.session_started_at = i64::MIN;
    let mut starting = deciding(false, None);
    assert_eq!(
        words(starting.step(
            StartEvent::Record {
                loaded: found(state),
                stat: live(),
                group_exists: true
            },
            i64::MAX
        ))[1],
        "failed 7 service is already building"
    );
    // A service that is up already has an age and no next generation.
    let mut state = record(Phase::Running);
    state.generation = u64::MAX;
    state.session_started_at = 1000;
    let mut starting = deciding(false, None);
    assert_eq!(
        words(starting.step(
            StartEvent::Record {
                loaded: found(state),
                stat: live(),
                group_exists: true
            },
            61_000
        ))[0],
        "marker ALREADY RUNNING (pid 200, uptime 1m0s, ready)"
    );
    // A session that is over has a next generation and no age.
    let mut state = record(Phase::Stopped);
    state.generation = 8;
    state.session_started_at = i64::MIN;
    state.child_pgid = None;
    let mut starting = deciding(false, None);
    assert_eq!(
        words(starting.step(
            StartEvent::Record {
                loaded: found(state),
                stat: None,
                group_exists: false
            },
            i64::MAX
        )),
        ["spawn __runner --config /p/agproc.toml --service api --generation 9"]
    );
    // A row of a service that is not up shows no age.
    let mut state = record(Phase::Exited);
    state.session_started_at = i64::MIN;
    state.ready_at = Some(i64::MIN);
    let row = row_for(
        &service(),
        Some(&state),
        None,
        false,
        &project(),
        "then",
        i64::MAX,
    );
    assert_eq!(row.uptime_seconds, None);
}

#[test]
fn a_runner_that_never_publishes_is_given_up() {
    let mut starting = deciding(false, None);
    starting.step(
        StartEvent::Record {
            loaded: Loaded {
                state: None,
                problem: None,
            },
            stat: None,
            group_exists: false,
        },
        0,
    );
    starting.step(StartEvent::Spawned { pid: 100 }, 0);
    let look = |alive: bool, elapsed_ms: u64| StartEvent::Look {
        record: None,
        stat: None,
        runner_alive: alive,
        elapsed_ms,
    };
    assert_eq!(words(starting.step(look(true, 4999), 0))[0], "sleep 20");
    assert_eq!(words(starting.step(look(true, 5000), 0))[0], "seek");
    assert_eq!(
        words(starting.step(look(false, 5001), 0)),
        drained("look")
    );
    assert_eq!(
        words(starting.step(look(false, 5002), 0)),
        [
            "marker RUNNER FAILED TO START (pid 100)",
            "failed 1 runner exited before reaching a settled phase (see the service logs)"
        ]
    );
}

#[test]
fn a_timeout_leaves_the_runner_working() {
    let mut starting = deciding(false, Some(2));
    starting.step(
        StartEvent::Record {
            loaded: Loaded {
                state: None,
                problem: None,
            },
            stat: None,
            group_exists: false,
        },
        0,
    );
    starting.step(StartEvent::Spawned { pid: 100 }, 0);
    let look = |elapsed_ms: u64| {
        let mut state = record(Phase::Building);
        state.generation = 1;
        StartEvent::Look {
            record: Some(state),
            stat: live(),
            runner_alive: true,
            elapsed_ms,
        }
    };
    starting.step(look(10), 0);
    assert_eq!(words(starting.step(look(2000), 0))[0], "sleep 25");
    assert_eq!(
        words(starting.step(look(2001), 0)),
        [
            "marker STILL STARTING (runner pid 100, phase building)",
            "flush",
            "failed 1 timed out waiting for the probe (the runner keeps working; use `agproc ps`)"
        ]
    );
}

fn record_event(phase: Phase, stat: Option<String>, group_exists: bool) -> StartEvent {
    StartEvent::Record {
        loaded: found(record(phase)),
        stat,
        group_exists,
    }
}

#[test]
fn start_is_idempotent_and_restart_stops_first() {
    let mut starting = deciding(false, None);
    assert_eq!(
        words(starting.step(record_event(Phase::Running, live(), true), 124_000)),
        [
            "marker ALREADY RUNNING (pid 200, uptime 2m3s, ready)",
            "marker WARNING: CONFIG CHANGED SINCE START (run `agproc restart api` to apply it)",
            "ok AlreadyRunning"
        ]
    );
    let mut starting = deciding(true, None);
    assert_eq!(
        words(starting.step(record_event(Phase::Running, live(), true), 124_000)),
        [
            "marker RESTARTING (stopping pid 200)",
            "stop",
            "spawn __runner --config /p/agproc.toml --service api --generation 8"
        ]
    );
    let mut starting = deciding(false, None);
    assert_eq!(
        words(starting.step(record_event(Phase::Building, live(), true), 124_000)),
        [
            "marker START IN PROGRESS (pid 100, phase building)",
            "failed 7 service is already building"
        ]
    );
}

#[test]
fn a_killed_runner_leaves_a_group_that_start_cleans_up() {
    let mut starting = deciding(false, None);
    assert_eq!(
        words(starting.step(record_event(Phase::Running, None, true), 0)),
        [
            "marker CLEANING UP LEFTOVER PROCESS GROUP (pgid 200)",
            "reap 200 1",
            "spawn __runner --config /p/agproc.toml --service api --generation 8"
        ]
    );
    // A session that is over is simply followed by the next.
    let mut starting = deciding(false, None);
    assert_eq!(
        words(starting.step(record_event(Phase::Exited, None, false), 0)),
        ["spawn __runner --config /p/agproc.toml --service api --generation 8"]
    );
}

#[test]
fn a_second_start_reports_the_holder_of_the_lock() {
    let mut starting = starting(false, None);
    assert_eq!(
        words(starting.step(
            StartEvent::LockHeld {
                holder: Some(41),
                record: Some(record(Phase::Building)),
                stat: live()
            },
            0
        )),
        [
            "marker START IN PROGRESS (pid 41, phase building)",
            "failed 7 another start/restart is in progress"
        ]
    );
    let (mut starting, _) = Starting::new("api", &FsPath::from_text("/p"), "", false, None, 4);
    assert_eq!(starting.grace_seconds, 4);
    assert_eq!(
        words(starting.step(
            StartEvent::LockHeld {
                holder: None,
                record: None,
                stat: None
            },
            0
        ))[0],
        "marker START IN PROGRESS (pid 0, phase unknown)"
    );
}

#[test]
fn a_runner_that_cannot_be_spawned_fails_the_start() {
    let mut starting = deciding(false, None);
    starting.step(record_event(Phase::Exited, None, false), 0);
    assert_eq!(
        words(starting.step(StartEvent::SpawnFailed("no exe".to_string()), 0)),
        ["failed 1 no exe"]
    );
}

#[test]
fn settled_phases_become_results() {
    assert_eq!(settle(Phase::Running).unwrap(), Started::Ready);
    for (phase, code, reason) in [
        (Phase::ConfigFailed, 3, "configuration error"),
        (Phase::BuildFailed, 4, "build failed"),
        (Phase::RunFailed, 5, "running failed"),
        (
            Phase::Exited,
            5,
            "running failed (exited right after the probe passed)",
        ),
        (Phase::ProbeFailed, 6, "probe failed"),
        (Phase::Stopped, 8, "stopped by another agproc invocation"),
        (
            Phase::Stale,
            5,
            "the runner disappeared before recording an outcome",
        ),
        (Phase::Building, 1, "unexpected phase \"building\""),
    ] {
        let failed = settle(phase).unwrap_err();
        assert_eq!((failed.code, failed.reason.as_str()), (code, reason));
    }
}

#[test]
fn the_first_failure_decides_the_exit_code() {
    let results = vec![
        ("a".to_string(), Ok(Started::Ready)),
        (
            "b".to_string(),
            Err(Failed::new(6, "probe failed".to_string())),
        ),
        (
            "c".to_string(),
            Err(Failed::new(4, "build failed".to_string())),
        ),
    ];
    let (lines, code) = start_summary(&results);
    assert_eq!(code, 6);
    assert_eq!(
        lines,
        ["START FAILED: b (probe failed)", "START FAILED: c (build failed)"]
    );
    assert_eq!(start_summary(&Vec::new()), (Vec::new(), 0));

    let (lines, code) = stop_summary(&vec![
        ("a".to_string(), Ok(StopOutcome::NotRunning)),
        ("b".to_string(), Err("denied".to_string())),
    ]);
    assert_eq!(lines, ["STOP FAILED: b (denied)"]);
    assert_eq!(code, 1);
    assert_eq!(stop_summary(&vec![("a".to_string(), Ok(StopOutcome::Forced))]).1, 0);
}

// ----------------------------------------------------------------------- stop
fn stop_words(actions: Vec<StopAction>) -> Vec<String> {
    let signal = |signal: GroupSignal| match signal {
        GroupSignal::Term => "term",
        GroupSignal::Kill => "kill",
    };
    actions
        .into_iter()
        .map(|action| match action {
            StopAction::Diagnostic(line) => format!("diagnostic {line}"),
            StopAction::Marker(line) => format!("marker {line}"),
            StopAction::ClearStop => "clear".to_string(),
            StopAction::MarkStop => "mark".to_string(),
            StopAction::SignalGroup { pgid, signal: s } => format!("group {pgid} {}", signal(s)),
            StopAction::SignalRunner { pid, signal: s } => format!("runner {pid} {}", signal(s)),
            StopAction::Sleep(ms) => format!("sleep {ms}"),
            StopAction::Reap {
                pgid,
                grace_seconds,
            } => format!("reap {pgid} {grace_seconds}"),
            StopAction::WriteRecord => "write".to_string(),
            StopAction::ReadRecord => "read".to_string(),
            StopAction::CheckRunner { pid } => format!("check-runner {pid}"),
            StopAction::CheckGroup { pgid } => format!("check-group {pgid}"),
            StopAction::ReadAgain => "read-again".to_string(),
            StopAction::Finish(outcome) => format!("finish {outcome:?}"),
        })
        .collect()
}

fn alive_after(alive: bool, waited_ms: u64) -> StopEvent {
    StopEvent::RunnerAlive { alive, waited_ms }
}

fn stopping() -> Stopping {
    Stopping::new(&service(), &Settings::default()).0
}

#[test]
fn stopping_a_running_service_signals_group_and_runner() {
    let mut stopping = stopping();
    assert_eq!(stopping.grace_seconds, 3);
    assert_eq!(
        stop_words(stopping.step(
            StopEvent::Record {
                loaded: found(record(Phase::Running)),
                stat: live(),
                group_exists: true
            },
            0
        )),
        [
            "mark",
            "group 200 term",
            "runner 100 term",
            "check-runner 100"
        ]
    );
    assert_eq!(
        stop_words(stopping.step(alive_after(true, 4999), 0)),
        ["sleep 50", "check-runner 100"]
    );
    assert_eq!(
        stop_words(stopping.step(alive_after(false, 5000), 0)),
        ["check-group 200"]
    );
    assert_eq!(
        stop_words(stopping.step(StopEvent::GroupExists(false), 0)),
        ["read-again"]
    );
    assert_eq!(
        stop_words(stopping.step(
            StopEvent::After {
                state: Some(record(Phase::Stopped)),
                stat: None
            },
            9
        )),
        ["clear", "marker STOPPED", "finish Stopped"]
    );
    assert_eq!(stopping.stage, StopStage::Done);
}

#[test]
fn what_survives_is_killed_and_the_outcome_recorded() {
    let mut stopping = stopping();
    stopping.step(
        StopEvent::Record {
            loaded: found(record(Phase::Building)),
            stat: live(),
            group_exists: true,
        },
        0,
    );
    assert_eq!(
        stop_words(stopping.step(alive_after(true, 5000), 0)),
        ["runner 100 kill", "check-runner 100"]
    );
    assert_eq!(
        stop_words(stopping.step(alive_after(true, 1999), 0)),
        ["sleep 50", "check-runner 100"]
    );
    assert_eq!(
        stop_words(stopping.step(alive_after(true, 2000), 0)),
        ["check-group 200"]
    );
    assert_eq!(
        stop_words(stopping.step(StopEvent::GroupExists(true), 0)),
        ["group 200 kill", "read-again"]
    );
    assert_eq!(
        stop_words(stopping.step(
            StopEvent::After {
                state: Some(record(Phase::Building)),
                stat: None
            },
            9
        )),
        [
            "write",
            "clear",
            "marker STOPPED (forced)",
            "finish Forced"
        ]
    );
    let written = stopping.record.unwrap();
    assert_eq!(written.phase, Phase::Stopped);
    assert_eq!(written.run_finished_at, Some(9));
    assert_eq!(written.generation, 7);
}

#[test]
fn stopping_what_does_not_run_is_harmless() {
    let mut nothing = stopping();
    assert_eq!(
        stop_words(nothing.step(
            StopEvent::Record {
                loaded: Loaded {
                    state: None,
                    problem: Some("broken".to_string())
                },
                stat: None,
                group_exists: false
            },
            0
        )),
        [
            "diagnostic broken",
            "clear",
            "marker NOT RUNNING",
            "finish NotRunning"
        ]
    );
    let mut over = stopping();
    assert_eq!(
        stop_words(over.step(
            StopEvent::Record {
                loaded: found(record(Phase::Stopped)),
                stat: None,
                group_exists: false
            },
            0
        )),
        ["clear", "marker NOT RUNNING", "finish NotRunning"]
    );
    let mut leftover = stopping();
    assert_eq!(
        stop_words(leftover.step(
            StopEvent::Record {
                loaded: found(record(Phase::Running)),
                stat: None,
                group_exists: true
            },
            0
        )),
        [
            "clear",
            "reap 200 3",
            "marker STOPPED (killed leftover process group of the stale)",
            "finish CleanedUp"
        ]
    );
}

#[test]
fn a_session_without_a_child_has_no_group_to_check() {
    let mut stopping = stopping();
    let mut state = record(Phase::Building);
    state.child_pid = None;
    state.child_pgid = None;
    assert_eq!(
        stop_words(stopping.step(
            StopEvent::Record {
                loaded: found(state),
                stat: live(),
                group_exists: false
            },
            0
        )),
        ["mark", "runner 100 term", "check-runner 100"]
    );
    assert_eq!(
        stop_words(stopping.step(alive_after(false, 0), 0)),
        ["read-again"]
    );
    // A record of another session does not count.
    let mut other = record(Phase::Stopped);
    other.generation = 8;
    assert_eq!(
        stop_words(stopping.step(
            StopEvent::After {
                state: Some(other),
                stat: None
            },
            9
        ))[0],
        "write"
    );
}

// ------------------------------------------------------------------------- ps
#[test]
fn rows_say_what_the_records_say() {
    let detail = |state: &State, stat: Option<&str>| {
        row_for(
            &service(),
            Some(state),
            stat,
            false,
            &project(),
            "then",
            61_000,
        )
    };
    let live = live();
    let live = live.as_deref();
    let never = row_for(&service(), None, None, true, &project(), "", 0);
    assert_eq!(never.detail, "never started");
    assert_eq!(never.phase, "stopped");
    assert!(!never.config_changed);
    assert_eq!(never.log_stdout, "/p/.agproc/logs/api.stdout.log");
    assert_eq!(never.log_stderr, "/p/.agproc/logs/api.stderr.log");

    let mut state = record(Phase::Running);
    state.ready_at = Some(31_000);
    let row = detail(&state, live);
    assert_eq!(row.detail, "ready 30s ago, probe tcp 127.0.0.1:3000");
    assert_eq!(row.pid, Some(200));
    assert_eq!(row.runner_pid, 100);
    assert_eq!(row.uptime_seconds, Some(60));
    assert!(row.ready);
    assert_eq!(row.started_at.as_deref(), Some("then"));
    state.ready_at = None;
    assert_eq!(
        detail(&state, live).detail,
        "ready ? ago, probe tcp 127.0.0.1:3000"
    );
    let row = detail(&state, None);
    assert_eq!(row.phase, "stale");
    assert_eq!(
        row.detail,
        "runner 100 disappeared without recording an outcome"
    );
    assert_eq!((row.pid, row.runner_pid, row.uptime_seconds), (None, 0, None));

    let mut state = record(Phase::Building);
    assert_eq!(detail(&state, live).detail, "building for 1m0s");
    state.child_pid = None;
    assert_eq!(detail(&state, live).pid, Some(100));
    state.phase = Phase::Starting;
    assert_eq!(detail(&state, live).detail, "probing (tcp 127.0.0.1:3000)");
    state.phase = Phase::BuildFailed;
    assert_eq!(detail(&state, None).detail, "build-cmd timed out");
    state.build_exit_code = Some(101);
    assert_eq!(detail(&state, None).detail, "build-cmd exited with 101");
    state.phase = Phase::RunFailed;
    assert_eq!(
        detail(&state, None).detail,
        "run-cmd exited before the probe passed"
    );
    state.run_exit_code = Some(-1);
    assert_eq!(
        detail(&state, None).detail,
        "run-cmd exited with -1 before the probe passed"
    );
    state.phase = Phase::Exited;
    assert_eq!(
        detail(&state, None).detail,
        "run-cmd exited with -1 after the probe passed"
    );
    assert!(detail(&state, None).ready);
    state.run_exit_code = None;
    assert_eq!(
        detail(&state, None).detail,
        "run-cmd terminated after the probe passed"
    );
    state.phase = Phase::ProbeFailed;
    assert_eq!(
        detail(&state, None).detail,
        "tcp-connect tcp 127.0.0.1:3000 never became ready"
    );
    state.probe.last_error = Some("connection refused".to_string());
    assert_eq!(
        detail(&state, None).detail,
        "tcp-connect tcp 127.0.0.1:3000: connection refused"
    );
    state.phase = Phase::ConfigFailed;
    assert_eq!(
        detail(&state, None).detail,
        "configuration error (see .agproc/tmp/api.console.stdout)"
    );
    state.phase = Phase::Stopped;
    assert_eq!(detail(&state, None).detail, "stopped");
}

#[test]
fn tables_line_up() {
    let mut state = record(Phase::Running);
    state.service = "a-long-name".to_string();
    state.ready_at = Some(0);
    let live = live();
    let rows = vec![
        row_for(
            &service(),
            Some(&state),
            live.as_deref(),
            true,
            &project(),
            "t",
            61_000,
        ),
        row_for(&service(), None, None, false, &project(), "", 0),
    ];
    assert_eq!(
        print_table(&rows),
        [
            "NAME         STATUS   PID      UPTIME   DETAIL",
            "a-long-name  running  200      1m0s     ready 1m1s ago, probe tcp 127.0.0.1:3000 [config changed since start]",
            "api          stopped  -        -        never started",
        ]
    );
    let idle = vec![row_for(&service(), None, None, false, &project(), "", 0)];
    assert_eq!(
        print_table(&idle)[2],
        "(no agproc-managed service is running)"
    );
    assert_eq!(print_table(&Vec::new()).len(), 2);
}

#[test]
fn a_changed_config_is_noticed() {
    let mut state = record(Phase::Running);
    assert!(config_changed(Some(&state), "fnv1a64:bb"));
    assert!(!config_changed(Some(&state), "fnv1a64:aa"));
    state.config_hash = String::new();
    assert!(!config_changed(Some(&state), "fnv1a64:bb"));
    assert!(!config_changed(None, "fnv1a64:bb"));
}

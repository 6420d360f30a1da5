use agproc::config::{Cmd, Config, LoadedConfig, Probe, ProbeTarget, Service, Settings, TcpConnect};
use agproc::envmap::EnvMap;
use agproc::logstore::{LogFile, LogSink, SinkOp};
use agproc::paths::{FsPath, Project};
use agproc::runner::{Action, Event, Session, Stage};
use agproc::state::{load, Offsets, Phase, ProbeState, State, StateFile};
use agproc::supervise::{
    build_timed_out, Drain, GroupSignal, Outcome, ProbeReply, ProbeRunner, Termination,
    TerminationStep, Tick, Watch, QUIET_MS,
};

fn service(build: bool) -> Service {
    Service {
        name: "api".to_string(),
        cwd: None,
        env: EnvMap::new(),
        env_file: None,
        build_cmd: if build {
            Some(Cmd(vec!["make".to_string()]))
        } else {
            None
        },
        build_timeout_seconds: Some(30),
        run_cmd: Cmd(vec!["./api".to_string()]),
        stop_timeout_seconds: None,
        probe: Some(Probe {
            tcp_connect: Some(TcpConnect {
                host: "127.0.0.1".to_string(),
                port: 3000,
            }),
            failure_threshold: 2,
            ..Probe::default()
        }),
    }
}

fn open(service: Service) -> Session {
    let loaded = LoadedConfig {
        config: Config {
            settings: Settings::default(),
            services: vec![service],
        },
        hash: "fnv1a64:abcd".to_string(),
    };
    match Session::open(
        loaded,
        &FsPath::from_text("/p/agproc.toml"),
        "api",
        4,
        100,
        Some(55),
        1000,
    ) {
        Ok(session) => session,
        Err(message) => panic!("{message}"),
    }
}

/// The actions of a step, as words.
fn words(actions: Vec<Action>) -> Vec<String> {
    actions
        .into_iter()
        .map(|action| match action {
            Action::Marker(line) => format!("marker {line}"),
            Action::Publish => "publish".to_string(),
            Action::BeginRun => "begin-run".to_string(),
            Action::EndNarrative => "end-narrative".to_string(),
            Action::Terminate => "terminate".to_string(),
            Action::RemoveConsole => "remove-console".to_string(),
            Action::LoadEnv => "load-env".to_string(),
            Action::SpawnBuild => "spawn-build".to_string(),
            Action::WatchBuild { timeout_seconds } => format!("watch-build {timeout_seconds}"),
            Action::ReadClock => "read-clock".to_string(),
            Action::CheckStop => "check-stop".to_string(),
            Action::FindListeners => "find-listeners".to_string(),
            Action::SpawnRun => "spawn-run".to_string(),
            Action::WatchProbe => "watch-probe".to_string(),
            Action::WatchReady => "watch-ready".to_string(),
            Action::Exit(code) => format!("exit {code}"),
        })
        .collect()
}

fn begin(session: &mut Session) {
    words(session.step(
        Event::Begin {
            stamp: "now".to_string(),
        },
        1000,
    ));
}

fn nobody() -> Event {
    Event::Listeners {
        listeners: Vec::new(),
        groups: Vec::new(),
    }
}

fn ended(outcome: Outcome) -> Event {
    Event::Ended { outcome }
}

fn clock() -> Event {
    Event::Clock { watched_ms: 12_000 }
}

/// The child ends, and its process group is over a moment later.
fn over(session: &mut Session, outcome: Outcome, at: i64) -> Vec<String> {
    assert_eq!(
        words(session.step(ended(outcome), at)),
        ["terminate", "read-clock"]
    );
    words(session.step(clock(), at + 500))
}

/// A session without a build, up to its probe.
fn probing(listeners: Event) -> Session {
    let mut session = open(service(false));
    begin(&mut session);
    session.step(Event::Env(Ok(())), 1001);
    session.step(listeners, 1002);
    session.step(Event::Spawned { pid: 200, pgid: 200 }, 1003);
    assert_eq!(session.stage, Stage::RunProbe);
    session
}

fn ready() -> Session {
    let mut session = probing(nobody());
    session.step(ended(Outcome::Ready { attempts: 2 }), 1004);
    session.step(nobody(), 1005);
    assert_eq!(session.stage, Stage::ReadyWait);
    session
}

#[test]
fn a_session_narrates_build_run_and_probe() {
    let mut session = open(service(true));
    assert_eq!(session.state.probe.target, "tcp 127.0.0.1:3000");
    assert_eq!(session.state.probe.kind, "tcp-connect");
    assert_eq!(session.state.child_kind.as_deref(), Some("build"));
    assert_eq!(session.state.runner_start_ticks, 55);
    assert_eq!(session.state.generation, 4);
    assert_eq!(session.stop_timeout(), 10);
    assert_eq!(
        words(session.step(
            Event::Begin {
                stamp: "2026-09-10T09:35:00.123+0800".to_string()
            },
            1000
        )),
        [
            "marker SESSION 2026-09-10T09:35:00.123+0800",
            "publish",
            "load-env"
        ]
    );
    assert_eq!(session.state.phase, Phase::Building);
    assert_eq!(
        words(session.step(Event::Env(Ok(())), 1001)),
        ["marker BUILDING", "publish", "spawn-build"]
    );
    assert_eq!(session.state.build_started_at, Some(1001));
    assert_eq!(
        words(session.step(Event::Spawned { pid: 150, pgid: 150 }, 1002)),
        ["publish", "watch-build 30"]
    );
    assert_eq!(session.state.child_pid, Some(150));
    assert_eq!(
        words(session.step(ended(Outcome::Exited(0)), 1003)),
        ["terminate", "read-clock"]
    );
    assert_eq!(session.state.build_finished_at, None);
    assert_eq!(
        words(session.step(clock(), 1503)),
        ["marker BUILD SUCCEED", "publish", "find-listeners"]
    );
    assert_eq!(session.state.build_exit_code, Some(0));
    assert_eq!(session.state.build_finished_at, Some(1503));
    assert_eq!(
        words(session.step(nobody(), 1004)),
        ["begin-run", "marker RUNNING", "publish", "spawn-run"]
    );
    assert_eq!(session.state.phase, Phase::Starting);
    assert_eq!(session.state.child_kind.as_deref(), Some("run"));
    assert_eq!(
        words(session.step(Event::Spawned { pid: 200, pgid: 200 }, 1005)),
        ["publish", "watch-probe"]
    );
    assert_eq!(
        words(session.step(ended(Outcome::Ready { attempts: 2 }), 1006)),
        ["find-listeners"]
    );
    assert_eq!(
        words(session.step(nobody(), 1007)),
        [
            "marker PROBE PASSED (attempt 2)",
            "publish",
            "end-narrative",
            "watch-ready"
        ]
    );
    assert_eq!(session.state.phase, Phase::Running);
    assert_eq!(session.state.ready_at, Some(1007));
    assert_eq!(session.state.ready_via.as_deref(), Some("tcp-connect"));
    assert_eq!(session.state.probe.attempts, 2);
    assert_eq!(
        words(session.step(ended(Outcome::Exited(0)), 2008)),
        ["terminate", "read-clock"]
    );
    assert_eq!(session.state.run_finished_at, None);
    assert_eq!(words(session.step(clock(), 4508)), ["check-stop"]);
    assert_eq!(session.state.run_finished_at, Some(4508));
    assert_eq!(
        words(session.step(Event::StopRequested(false), 4509)),
        [
            "marker SERVICE EXITED (exit code 0, ready for 12s)",
            "publish",
            "remove-console",
            "exit 5"
        ]
    );
    assert_eq!(session.state.phase, Phase::Exited);
    assert_eq!(session.state.run_exit_code, Some(0));
    assert_eq!(session.state.run_finished_at, Some(4508));
}

#[test]
fn a_service_without_a_probe_is_ready_by_staying_alive() {
    let mut plain = service(false);
    plain.probe = None;
    let mut session = open(plain);
    assert_eq!(session.target, ProbeTarget::NoProbe);
    begin(&mut session);
    assert_eq!(session.state.phase, Phase::Starting);
    assert_eq!(
        words(session.step(Event::Env(Ok(())), 1001)),
        ["find-listeners"]
    );
    session.step(nobody(), 1002);
    session.step(Event::Spawned { pid: 7, pgid: 7 }, 1003);
    session.step(ended(Outcome::Ready { attempts: 1 }), 1004);
    assert_eq!(
        words(session.step(nobody(), 1005))[0],
        "marker PROBE PASSED (NO PROBE CONFIGURED)"
    );
    assert_eq!(session.state.ready_via.as_deref(), Some("none"));
}

#[test]
fn an_unknown_service_has_no_session() {
    let loaded = LoadedConfig {
        config: Config {
            settings: Settings::default(),
            services: vec![service(false)],
        },
        hash: String::new(),
    };
    match Session::open(
        loaded,
        &FsPath::from_text("/p/agproc.toml"),
        "web",
        1,
        1,
        None,
        0,
    ) {
        Ok(_) => panic!("no such service"),
        Err(message) => assert_eq!(message, "service \"web\" not found in /p/agproc.toml"),
    }
}

#[test]
fn a_missing_environment_spawns_nothing() {
    let mut session = open(service(true));
    begin(&mut session);
    let reason = "service \"api\": cannot read env-file /p/.env: gone".to_string();
    assert_eq!(
        words(session.step(Event::Env(Err(reason)), 1001)),
        [
            "marker CONFIG FAILED: service \"api\": cannot read env-file /p/.env: gone",
            "publish",
            "exit 3"
        ]
    );
    assert_eq!(session.state.phase, Phase::ConfigFailed);
    assert_eq!(session.state.child_pid, None);
}

#[test]
fn failed_builds_end_the_session() {
    let building = || {
        let mut session = open(service(true));
        begin(&mut session);
        session.step(Event::Env(Ok(())), 1001);
        session
    };
    let mut session = building();
    assert_eq!(
        words(session.step(Event::SpawnFailed("no make".to_string()), 1002)),
        [
            "marker BUILD FAILED (cannot spawn: no make)",
            "publish",
            "exit 4"
        ]
    );
    assert_eq!(session.state.build_finished_at, Some(1002));

    let waiting = || {
        let mut session = building();
        session.step(Event::Spawned { pid: 150, pgid: 150 }, 1002);
        session
    };
    let mut session = waiting();
    assert_eq!(
        over(&mut session, Outcome::Exited(101), 1003),
        ["marker BUILD FAILED (exit code 101)", "publish", "exit 4"]
    );
    assert_eq!(session.state.build_exit_code, Some(101));
    assert_eq!(session.state.build_finished_at, Some(1503));
    let mut session = waiting();
    assert_eq!(
        over(&mut session, Outcome::TimedOut, 1003)[0],
        "marker BUILD FAILED (timeout after 30s)"
    );
    assert_eq!(session.state.build_exit_code, None);
    assert_eq!(session.state.build_finished_at, Some(1503));
    for (stop, line) in [
        (true, "marker STOPPED (build cancelled)"),
        (false, "marker STOPPED (signal received while building)"),
    ] {
        let mut session = waiting();
        assert_eq!(
            over(&mut session, Outcome::Terminated, 1003),
            ["check-stop"]
        );
        assert_eq!(session.state.build_finished_at, Some(1503));
        assert_eq!(
            words(session.step(Event::StopRequested(stop), 1504)),
            [line, "publish", "exit 8"]
        );
        assert_eq!(session.state.phase, Phase::Stopped);
    }
}

#[test]
fn a_child_that_dies_before_it_is_ready_fails_the_session() {
    let mut session = probing(nobody());
    assert_eq!(
        over(&mut session, Outcome::Exited(3), 1004),
        ["check-stop"]
    );
    assert_eq!(session.state.run_exit_code, Some(3));
    assert_eq!(session.state.run_finished_at, Some(1504));
    assert_eq!(
        words(session.step(Event::StopRequested(false), 1505)),
        [
            "marker RUNNING FAILED (exit code 3)",
            "publish",
            "exit 5"
        ]
    );
    assert_eq!(session.state.phase, Phase::RunFailed);

    let mut session = probing(nobody());
    over(&mut session, Outcome::Exited(143), 1004);
    assert_eq!(
        words(session.step(Event::StopRequested(true), 1005)),
        ["marker STOPPED", "publish", "exit 8"]
    );

    let mut session = probing(nobody());
    assert_eq!(
        words(session.step(ended(Outcome::Terminated), 1004)),
        ["terminate", "check-stop"]
    );
    assert_eq!(
        words(session.step(Event::StopRequested(false), 1005))[0],
        "marker STOPPED (signal received)"
    );
    assert_eq!(session.state.run_finished_at, None);

    let mut session = open(service(false));
    begin(&mut session);
    session.step(Event::Env(Ok(())), 1001);
    session.step(nobody(), 1002);
    assert_eq!(
        words(session.step(Event::SpawnFailed("gone".to_string()), 1003)),
        [
            "marker RUNNING FAILED (cannot spawn: gone)",
            "publish",
            "exit 5"
        ]
    );
}

#[test]
fn a_probe_that_gives_up_stops_the_child() {
    let mut session = probing(nobody());
    assert_eq!(
        words(session.step(
            ended(Outcome::ProbeFailed {
                attempts: 2,
                failures: 2,
                last_error: "connection refused".to_string()
            }),
            1004
        )),
        [
            "terminate",
            "marker PROBE FAILED: 2 consecutive failures, last: connection refused (tcp 127.0.0.1:3000)",
            "publish",
            "exit 6"
        ]
    );
    assert_eq!(
        session.state.probe.last_error.as_deref(),
        Some("connection refused")
    );
}

#[test]
fn a_foreign_listener_never_makes_a_service_ready() {
    let foreign = || Event::Listeners {
        listeners: vec![(77, "node".to_string())],
        groups: vec![Some(77)],
    };
    let mut session = open(service(false));
    begin(&mut session);
    session.step(Event::Env(Ok(())), 1001);
    assert_eq!(
        words(session.step(foreign(), 1002))[0],
        "marker WARNING: PORT 3000 ALREADY IN USE BY pid 77 (node)"
    );
    assert_eq!(session.state.probe.foreign_port_pid, Some(77));
    session.step(Event::Spawned { pid: 200, pgid: 200 }, 1003);
    session.step(ended(Outcome::Ready { attempts: 1 }), 1004);
    assert_eq!(
        words(session.step(foreign(), 1005)),
        [
            "terminate",
            "marker PROBE FAILED: port 3000 is owned by pid 77 (node), not by service \"api\"",
            "publish",
            "exit 6"
        ]
    );
    assert_eq!(session.state.ready_at, None);

    // One that was not there before is only warned of.
    let mut session = probing(nobody());
    session.step(ended(Outcome::Ready { attempts: 1 }), 1004);
    assert_eq!(
        words(session.step(foreign(), 1005))[0],
        "marker WARNING: PORT 3000 IS HELD BY pid 77 (node) (not part of this service); the probe result may be misleading"
    );
    assert_eq!(session.state.phase, Phase::Running);

    // One in the service's own group is the service.
    let mut session = probing(foreign());
    session.step(ended(Outcome::Ready { attempts: 1 }), 1004);
    let ours = Event::Listeners {
        listeners: vec![(77, "node".to_string()), (201, "api".to_string())],
        groups: vec![Some(77), Some(200)],
    };
    assert_eq!(
        words(session.step(ours, 1005))[0],
        "marker PROBE PASSED (attempt 1)"
    );
}

#[test]
fn a_ready_session_ends_as_stopped_or_exited() {
    let mut session = ready();
    assert_eq!(
        over(&mut session, Outcome::Terminated, 2000),
        ["check-stop"]
    );
    assert_eq!(session.state.run_finished_at, Some(2500));
    assert_eq!(
        words(session.step(Event::StopRequested(true), 2001)),
        ["marker STOPPED", "publish", "remove-console", "exit 8"]
    );
    let mut session = ready();
    assert_eq!(
        over(&mut session, Outcome::Terminated, 2000),
        ["check-stop"]
    );
    assert_eq!(session.state.run_finished_at, Some(2500));
    assert_eq!(
        words(session.step(Event::StopRequested(false), 2001))[0],
        "marker SERVICE EXITED (terminated, ready for 12s)"
    );
    let mut session = ready();
    over(&mut session, Outcome::Exited(0), 2000);
    assert_eq!(
        words(session.step(Event::StopRequested(true), 2001))[0],
        "marker STOPPED"
    );
    assert_eq!(session.state.phase, Phase::Stopped);
}

/// Feed a sink what a session says, and keep what reaches the files.
fn narrate(sink: &mut LogSink, files: &mut [Vec<u8>; 4], actions: &[Action]) {
    for action in actions {
        let ops = match action {
            Action::Marker(line) => sink.marker(line),
            Action::BeginRun => sink.begin_run(),
            Action::EndNarrative => {
                sink.end_narrative();
                Vec::new()
            }
            _ => Vec::new(),
        };
        apply(files, ops);
    }
}

fn apply(files: &mut [Vec<u8>; 4], ops: Vec<SinkOp>) {
    let at = |file: LogFile| match file {
        LogFile::RunOut => 0,
        LogFile::RunErr => 1,
        LogFile::ConsoleOut => 2,
        LogFile::ConsoleErr => 3,
    };
    for op in ops {
        match op {
            SinkOp::Truncate(file) | SinkOp::Rotate(file) => files[at(file)].clear(),
            SinkOp::Append(file, bytes) => files[at(file)].extend(bytes),
        }
    }
}

#[test]
fn run_logs_hold_what_run_cmd_printed() {
    let mut session = open(service(true));
    let (mut sink, _) = LogSink::open(0);
    let mut files: [Vec<u8>; 4] = Default::default();
    let steps = vec![
        (
            "",
            Event::Begin {
                stamp: "now".to_string(),
            },
        ),
        ("", Event::Env(Ok(()))),
        ("", Event::Spawned { pid: 150, pgid: 150 }),
        ("compiling\n", ended(Outcome::Exited(0))),
        ("", clock()),
        ("", nobody()),
        ("", Event::Spawned { pid: 200, pgid: 200 }),
        ("listening\n", ended(Outcome::Ready { attempts: 1 })),
        ("", nobody()),
        ("request\n", ended(Outcome::Exited(0))),
        ("", clock()),
        ("", Event::StopRequested(false)),
    ];
    for (output, event) in steps {
        let ops = sink.write_stdout(output.as_bytes());
        apply(&mut files, ops);
        let actions = session.step(event, 1000);
        narrate(&mut sink, &mut files, &actions);
    }
    assert_eq!(files[0], b"listening\nrequest\n");
    assert!(files[1].is_empty());
    let console = String::from_utf8(files[2].clone()).unwrap();
    assert_eq!(
        console,
        "===== SESSION now =====\n===== BUILDING =====\ncompiling\n===== BUILD SUCCEED =====\n===== RUNNING =====\nlistening\n===== PROBE PASSED (attempt 1) =====\n===== SERVICE EXITED (exit code 0, ready for 12s) =====\n"
    );
}

// ------------------------------------------------------------------ supervise
fn tick(reply: ProbeReply) -> Tick {
    Tick {
        terminated: false,
        exited: None,
        timed_out: false,
        reply,
    }
}

#[test]
fn every_probe_attempt_is_counted_and_reported() {
    let service = service(false);
    let mut probe = ProbeRunner::new(&service, &service.target(), 500);
    let mut seen = Watch::new();
    assert_eq!(probe.next_at, 1500);
    assert_eq!(probe.threshold, 2);
    let r = seen.round_probed(&mut probe, tick(ProbeReply::Pending), 1499);
    assert!(!r.launch && r.ended.is_none());
    let r = seen.round_probed(&mut probe, tick(ProbeReply::Pending), 1500);
    assert!(r.launch);
    let r = seen.round_probed(&mut probe, tick(ProbeReply::Pending), 1600);
    assert!(!r.launch);
    let r = seen.round_probed(
        &mut probe,
        tick(ProbeReply::Failed("connection refused".to_string())),
        1700,
    );
    assert_eq!(
        r.marker.as_deref(),
        Some("PROBE ATTEMPT 1/2 FAILED: connection refused (tcp 127.0.0.1:3000)")
    );
    assert_eq!(r.ended, None);
    assert_eq!(probe.next_at, 2700);
    assert!(seen.round_probed(&mut probe, tick(ProbeReply::Pending), 2700).launch);
    // An attempt that goes away is begun again and counts for nothing.
    seen.round_probed(&mut probe, tick(ProbeReply::Lost), 2701);
    assert!(seen.round_probed(&mut probe, tick(ProbeReply::Pending), 2702).launch);
    let r = seen.round_probed(
        &mut probe,
        tick(ProbeReply::Failed("HTTP 503".to_string())),
        2800,
    );
    assert_eq!(
        r.ended,
        Some(Outcome::ProbeFailed {
            attempts: 2,
            failures: 2,
            last_error: "HTTP 503".to_string()
        })
    );
}

#[test]
fn an_exit_outranks_the_probe() {
    let service = service(false);
    let mut probe = ProbeRunner::new(&service, &service.target(), 0);
    let mut seen = Watch::new();
    assert!(
        seen.round_probed(&mut probe, tick(ProbeReply::Pending), 1000)
            .launch
    );
    let mut dead = tick(ProbeReply::Passed);
    dead.exited = Some(1);
    dead.timed_out = true;
    assert_eq!(
        seen.round_probed(&mut probe, dead, 1001).ended,
        Some(Outcome::Exited(1))
    );
    assert_eq!(probe.attempts, 0);
    assert_eq!(
        Watch::new()
            .round_probed(&mut probe, tick(ProbeReply::Passed), 1002)
            .ended,
        Some(Outcome::Ready { attempts: 1 })
    );

    // A round that a signal ends does not look at the child.
    let mut seen = Watch::new();
    let mut both = tick(ProbeReply::Pending);
    both.terminated = true;
    both.exited = Some(1);
    assert_eq!(seen.round(both).ended, Some(Outcome::Terminated));
    assert_eq!(seen.exited, None);
    let mut late = tick(ProbeReply::Pending);
    late.timed_out = true;
    assert_eq!(seen.round(late).ended, Some(Outcome::TimedOut));
    assert_eq!(seen.round(tick(ProbeReply::Pending)).ended, None);
}

#[test]
fn a_recorded_exit_stays_the_answer() {
    let service = service(false);
    let mut probe = ProbeRunner::new(&service, &service.target(), 0);
    let mut seen = Watch::new();
    let mut gone = tick(ProbeReply::Pending);
    gone.exited = Some(7);
    assert_eq!(seen.round(gone).ended, Some(Outcome::Exited(7)));
    assert_eq!(seen.exited, Some(7));
    let mut signalled = tick(ProbeReply::Passed);
    signalled.terminated = true;
    assert_eq!(
        seen.round_probed(&mut probe, signalled, 9000).ended,
        Some(Outcome::Exited(7))
    );
    let mut other = tick(ProbeReply::Pending);
    other.exited = Some(8);
    other.timed_out = true;
    assert_eq!(seen.round(other).ended, Some(Outcome::Exited(7)));
    let r = seen.round_probed(&mut probe, tick(ProbeReply::Pending), 9000);
    assert_eq!(r.ended, Some(Outcome::Exited(7)));
    assert!(!r.launch && r.marker.is_none());
    assert_eq!(probe.attempts, 0);
}

#[test]
fn a_build_times_out_at_its_limit() {
    assert!(!build_timed_out(0, u64::MAX));
    assert!(!build_timed_out(30, 29_999));
    assert!(build_timed_out(30, 30_000));
    assert!(!build_timed_out(u64::MAX, u64::MAX));
}

#[test]
fn last_words_are_awaited_until_it_is_quiet() {
    let mut drain = Drain::new(1000);
    assert_eq!(QUIET_MS, 200);
    assert!(drain.goes_on(1000));
    assert!(drain.goes_on(1199));
    assert!(!drain.goes_on(1200));
    drain.heard(1199);
    assert!(drain.goes_on(1398));
    assert!(!drain.goes_on(1399));
    assert!(drain.goes_on(0));
}

#[test]
fn a_service_without_a_probe_waits_a_second() {
    let mut plain = service(false);
    plain.probe = None;
    let probe = ProbeRunner::new(&plain, &plain.target(), 40);
    assert_eq!(
        (
            probe.timeout_seconds,
            probe.period_seconds,
            probe.threshold,
            probe.next_at
        ),
        (2, 1, 1, 1040)
    );
}

#[test]
fn groups_are_asked_before_they_are_killed() {
    let mut ending = Termination::new(1);
    assert_eq!(
        ending.step(true, 100),
        TerminationStep::Signal(GroupSignal::Term)
    );
    assert_eq!(ending.step(true, 1099), TerminationStep::Wait(50));
    assert_eq!(
        ending.step(true, 1100),
        TerminationStep::Signal(GroupSignal::Kill)
    );
    assert_eq!(ending.step(true, 3099), TerminationStep::Wait(20));
    assert_eq!(ending.step(true, 3100), TerminationStep::Finished);
    let mut ending = Termination::new(10);
    ending.step(true, 0);
    assert_eq!(ending.step(false, 1), TerminationStep::Finished);
    assert_eq!(ending.step(true, 2), TerminationStep::Finished);
}

// ---------------------------------------------------------------------- state
fn stat(pid: u32, ticks: u64) -> String {
    format!("{pid} (agproc) S 1 {pid} {pid} 0 -1 0 0 0 0 0 0 0 0 0 20 0 1 0 {ticks} 0 0\n")
}

#[test]
fn round_trips_through_disk() {
    let project = Project {
        root: FsPath::from_text("/p"),
        config_path: FsPath::from_text("/p/agproc.toml"),
    };
    let mut state = State::new("backend", 3, "fnv1a64:abcd", 321, Some(99), 1000);
    state.phase = Phase::Running;
    state.ready_at = Some(1500);
    state.probe = ProbeState {
        kind: "http-get".into(),
        target: "http://127.0.0.1:3100/healthz".into(),
        attempts: 2,
        last_error: None,
        foreign_port_pid: None,
    };
    let path = state.write(&project, 2000);
    assert_eq!(path.display(), "/p/.agproc/state/backend.json");
    assert_eq!(state.updated_at, 2000);

    let loaded = load(&path, StateFile::Record(state));
    assert!(loaded.problem.is_none());
    let read = loaded.state.unwrap();
    assert_eq!(read.phase, Phase::Running);
    assert_eq!(read.generation, 3);
    // The process is the runner that was recorded, so the record is live.
    let own = stat(321, 99);
    assert!(read.runner_live(Some(&own)));
    assert_eq!(read.effective_phase(Some(&own)), Phase::Running);
    assert_eq!(read.probe.attempts, 2);
    assert_eq!(read.session_start_offset, Offsets::default());
    assert_eq!(read.agproc_version, "0.1.0");
    assert_eq!(read.uptime_ms(61_000), 60_000);
}

#[test]
fn dead_runner_is_stale_only_while_in_flight() {
    let mut state = State::new("svc", 1, "h", 1, None, 0);
    state.runner_pid = 0x7fff_fffe; // certainly not running
    state.phase = Phase::Running;
    assert!(!state.runner_live(None));
    assert_eq!(state.effective_phase(None), Phase::Stale);

    // A terminal phase recorded before the runner exited stays as-is.
    state.phase = Phase::Exited;
    assert_eq!(state.effective_phase(None), Phase::Exited);
}

#[test]
fn pid_reuse_is_detected_by_starttime() {
    let mut state = State::new("svc", 1, "h", 321, None, 0);
    let own = stat(321, 99);
    // Without a recorded start time only liveness counts.
    assert!(state.runner_live(Some(&own)));
    state.runner_start_ticks = 1; // wrong fingerprint for that pid
    assert!(!state.runner_live(Some(&own)));
    state.runner_start_ticks = 99;
    assert!(state.runner_live(Some(&own)));
    assert!(!state.runner_live(Some("321 (agproc) Z 1 321")));
}

#[test]
fn unparsable_state_is_reported_not_fatal() {
    let path = FsPath::from_text("/p/.agproc/state/svc.json");
    let loaded = load(
        &path,
        StateFile::Unparsable("key must be a string at line 1 column 3".to_string()),
    );
    assert!(loaded.state.is_none());
    assert!(loaded.problem.is_some());

    let loaded = load(&path, StateFile::Absent);
    assert!(loaded.state.is_none());
    assert!(loaded.problem.is_none());

    let loaded = load(&path, StateFile::Unreadable("denied".to_string()));
    assert_eq!(
        loaded.problem.as_deref(),
        Some("cannot read /p/.agproc/state/svc.json: denied")
    );
    let mut other = State::new("svc", 1, "h", 1, None, 0);
    other.schema = 2;
    let loaded = load(&path, StateFile::Record(other));
    assert!(loaded.state.is_none());
    assert_eq!(
        loaded.problem.as_deref(),
        Some("/p/.agproc/state/svc.json was written with state schema 2 (this agproc uses 1); ignoring it")
    );
}

#[test]
fn phase_exit_codes_match_the_contract() {
    assert_eq!(Phase::Running.start_exit_code(), 0);
    assert_eq!(Phase::BuildFailed.start_exit_code(), 4);
    assert_eq!(Phase::RunFailed.start_exit_code(), 5);
    assert_eq!(Phase::Exited.start_exit_code(), 5);
    assert_eq!(Phase::ProbeFailed.start_exit_code(), 6);
    assert_eq!(Phase::Stopped.start_exit_code(), 8);
}

#[test]
fn phases_have_names_and_words() {
    assert_eq!(Phase::ConfigFailed.as_str(), "config-failed");
    assert_eq!(Phase::ConfigFailed.display(), "config failed");
    assert_eq!(Phase::ConfigFailed.start_exit_code(), 3);
    assert_eq!(Phase::Exited.as_str(), "exited");
    assert_eq!(Phase::Exited.display(), "running failed");
    assert_eq!(Phase::Stale.start_exit_code(), 5);
    assert!(Phase::ConfigFailed.settled());
    assert!(Phase::Running.settled());
    assert!(!Phase::Building.settled());
    assert!(!Phase::Starting.settled());
}

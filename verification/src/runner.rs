//! `agproc __runner` — the detached per-service supervisor.
//!
//! One runner owns exactly one service for one session. It performs
//! build-cmd -> run-cmd -> probe and is the single authority on the service's
//! lifecycle. This module decides: it is told what happened and answers with
//! what to do. Whoever runs it performs the actions in order and reports back
//! what the last one, always a question, came to.
//!
//! The runner never holds the orchestration lock and never talks to the CLI
//! directly; everything travels through the log files and the state file.

use vstd::prelude::*;
use vstd::string::*;

use crate::config;
use crate::config::{LoadedConfig, ProbeTarget, Service, Settings};
use crate::paths;
use crate::paths::FsPath;
use crate::port;
use crate::port::{Listener, Ownership};
use crate::state;
use crate::state::{Phase, State, StateView};
use crate::supervise;
use crate::supervise::Outcome;
use crate::text;
use crate::util;

verus! {

pub struct Args {
    pub config: FsPath,
    pub service: String,
    pub generation: u64,
}

/// How a child ended that was watched without a probe.
#[derive(Debug, Clone, Copy, PartialEq, Eq, Structural)]
pub enum ChildEnd {
    Exited { code: i32 },
    TimedOut,
    Terminated,
}

/// Where a session stands: what it waits for.
#[derive(Debug, Clone, Copy, PartialEq, Eq, Structural)]
pub enum Stage {
    /// Nothing was done yet.
    New,
    /// The environment of the commands.
    Env,
    /// `build-cmd` to be spawned.
    BuildSpawn,
    /// `build-cmd` to end.
    BuildWait,
    /// The time at which the process group of `build-cmd` was over.
    BuildEnded { end: ChildEnd },
    /// Whether a stop was asked for, after a cancelled build.
    BuildCancel,
    /// Who listens on the probe port before `run-cmd` starts.
    Preflight,
    /// `run-cmd` to be spawned.
    RunSpawn,
    /// The probe to settle.
    RunProbe,
    /// Who listens on the probe port now that the probe passed.
    RunVerify { attempts: u32 },
    /// The time at which the process group of `run-cmd` was over, after it exited
    /// before it was ready.
    RunEnded { code: i32 },
    /// Whether a stop was asked for, after `run-cmd` exited before it was ready.
    RunExit { code: i32 },
    /// Whether a stop was asked for, after a signal ended the session early.
    RunTerminated,
    /// `run-cmd`, which is ready, to end.
    ReadyWait,
    /// The time at which the process group of the ready `run-cmd` was over.
    ReadyEnded { end: ChildEnd },
    /// Whether a stop was asked for, after the ready `run-cmd` exited.
    ReadyExit { code: i32, ready_ms: i64 },
    /// Whether a stop was asked for, after a signal ended the ready session.
    ReadyTerminated { ready_ms: i64 },
    /// The session is over, with this exit code.
    Done { code: i32 },
}

/// What happened.
pub enum Event {
    /// The session begins; its start as text.
    Begin { stamp: String },
    /// The environment of the commands, or why there is none.
    Env(Result<(), String>),
    Spawned { pid: u32, pgid: i32 },
    SpawnFailed(String),
    /// The child's phase ended.
    Ended { outcome: Outcome },
    /// How much time has passed since the last watch over the child began.
    Clock { watched_ms: i64 },
    /// Was a stop asked for?
    StopRequested(bool),
    /// The listeners on the probe port and their process groups.
    Listeners { listeners: Vec<(u32, String)>, groups: Vec<Option<i32>> },
}

/// What to do.
pub enum Action {
    /// Write one of agproc's own lines to the console stream.
    Marker(String),
    /// Write the record of the session.
    Publish,
    /// Truncate the run logs and begin writing to them.
    BeginRun,
    /// Stop duplicating run output into the console stream.
    EndNarrative,
    /// End the child's process group.
    Terminate,
    /// Remove the console stream.
    RemoveConsole,
    /// Question: read the environment of the commands.
    LoadEnv,
    /// Question: spawn `build-cmd`.
    SpawnBuild,
    /// Question: watch `build-cmd`; 0 means no timeout.
    WatchBuild { timeout_seconds: u64 },
    /// Question: how much time has passed since the watch over the child began?
    ReadClock,
    /// Question: was a stop asked for?
    CheckStop,
    /// Question: who listens on the probe port?
    FindListeners,
    /// Question: spawn `run-cmd`.
    SpawnRun,
    /// Question: watch `run-cmd` and probe it.
    WatchProbe,
    /// Question: watch `run-cmd`.
    WatchReady,
    /// Leave with this exit code.
    Exit(i32),
}

/// What to do, as plain values.
pub enum ActionView {
    Marker(Seq<char>),
    Publish,
    BeginRun,
    EndNarrative,
    Terminate,
    RemoveConsole,
    LoadEnv,
    SpawnBuild,
    WatchBuild { timeout_seconds: u64 },
    ReadClock,
    CheckStop,
    FindListeners,
    SpawnRun,
    WatchProbe,
    WatchReady,
    Exit(i32),
}

impl View for Action {
    type V = ActionView;

    open spec fn view(&self) -> ActionView {
        match *self {
            Action::Marker(line) => ActionView::Marker(line@),
            Action::Publish => ActionView::Publish,
            Action::BeginRun => ActionView::BeginRun,
            Action::EndNarrative => ActionView::EndNarrative,
            Action::Terminate => ActionView::Terminate,
            Action::RemoveConsole => ActionView::RemoveConsole,
            Action::LoadEnv => ActionView::LoadEnv,
            Action::SpawnBuild => ActionView::SpawnBuild,
            Action::WatchBuild { timeout_seconds } => ActionView::WatchBuild { timeout_seconds },
            Action::ReadClock => ActionView::ReadClock,
            Action::CheckStop => ActionView::CheckStop,
            Action::FindListeners => ActionView::FindListeners,
            Action::SpawnRun => ActionView::SpawnRun,
            Action::WatchProbe => ActionView::WatchProbe,
            Action::WatchReady => ActionView::WatchReady,
            Action::Exit(code) => ActionView::Exit(code),
        }
    }
}

pub open spec fn actions_view(actions: Seq<Action>) -> Seq<ActionView> {
    actions.map_values(|a: Action| a@)
}

/// One session of one service.
pub struct Session {
    pub service: Service,
    pub settings: Settings,
    pub target: ProbeTarget,
    pub state: State,
    /// Who held the probe port before `run-cmd` started.
    pub preflight: Option<Listener>,
    pub stage: Stage,
}

/// What a session is, as plain values.
pub struct SessionView {
    pub stage: Stage,
    pub preflight: Option<Listener>,
    pub state: StateView,
}

/// A session after a step, and what to do.
pub struct Next {
    pub session: SessionView,
    pub actions: Seq<ActionView>,
}

impl Session {
    pub open spec fn model(&self) -> SessionView {
        SessionView { stage: self.stage, preflight: self.preflight, state: self.state@ }
    }
}

/// Do both sessions concern the same service under the same settings?
pub open spec fn same_subject(a: Session, b: Session) -> bool {
    a.service == b.service && a.settings == b.settings && a.target == b.target
}

/// A session after a step, and what to do.
pub open spec fn answer(session: Session, actions: Seq<Action>) -> Next {
    Next { session: session.model(), actions: actions_view(actions) }
}

/// The outcomes that watching a build can have.
pub open spec fn build_outcome(outcome: Outcome) -> bool {
    outcome is Exited || outcome is TimedOut || outcome is Terminated
}

/// The outcomes that watching a probed `run-cmd` can have.
pub open spec fn run_outcome(outcome: Outcome) -> bool {
    !(outcome is TimedOut)
}

/// The outcomes that watching a ready `run-cmd` can have.
pub open spec fn ready_outcome(outcome: Outcome) -> bool {
    outcome is Exited || outcome is Terminated
}

/// Is this what the stage waits for?
pub open spec fn expects(stage: Stage, event: Event) -> bool {
    match stage {
        Stage::New => event is Begin,
        Stage::Env => event is Env,
        Stage::BuildSpawn => event is Spawned || event is SpawnFailed,
        Stage::BuildWait => event matches Event::Ended { outcome } && build_outcome(outcome),
        Stage::BuildEnded { .. } => event is Clock,
        Stage::BuildCancel => event is StopRequested,
        Stage::Preflight => event is Listeners,
        Stage::RunSpawn => event is Spawned || event is SpawnFailed,
        Stage::RunProbe => event matches Event::Ended { outcome } && run_outcome(outcome),
        Stage::RunVerify { .. } => event is Listeners,
        Stage::RunEnded { .. } => event is Clock,
        Stage::RunExit { .. } => event is StopRequested,
        Stage::RunTerminated => event is StopRequested,
        Stage::ReadyWait => event matches Event::Ended { outcome } && ready_outcome(outcome),
        Stage::ReadyEnded { .. } => event is Clock,
        Stage::ReadyExit { .. } => event is StopRequested,
        Stage::ReadyTerminated { .. } => event is StopRequested,
        Stage::Done { .. } => false,
    }
}

/// Record a terminal phase after `before`, and leave.
pub open spec fn finish(
    s: SessionView,
    before: Seq<ActionView>,
    phase: Phase,
    line: Seq<char>,
) -> Next {
    Next {
        session: SessionView {
            stage: Stage::Done { code: state::phase_code(phase) },
            state: StateView { phase, ..s.state },
            ..s
        },
        actions: before + seq![
            ActionView::Marker(line),
            ActionView::Publish,
            ActionView::Exit(state::phase_code(phase)),
        ],
    }
}

/// Record the terminal phase of a session that was ready, and leave: its console
/// stream goes with it.
pub open spec fn finish_ready(s: SessionView, phase: Phase, line: Seq<char>) -> Next {
    Next {
        session: SessionView {
            stage: Stage::Done { code: state::phase_code(phase) },
            state: StateView { phase, ..s.state },
            ..s
        },
        actions: seq![
            ActionView::Marker(line),
            ActionView::Publish,
            ActionView::RemoveConsole,
            ActionView::Exit(state::phase_code(phase)),
        ],
    }
}

/// `<head><what><tail>`, one of agproc's lines.
pub open spec fn around(head: Seq<char>, what: Seq<char>, tail: Seq<char>) -> Seq<char> {
    head + what + tail
}

/// Begin: narrate, and record the phase that comes first.
pub open spec fn after_begin(service: Service, s: SessionView, stamp: Seq<char>) -> Next {
    Next {
        session: SessionView {
            stage: Stage::Env,
            state: StateView {
                phase: if service.build_cmd is Some {
                    Phase::Building
                } else {
                    Phase::Starting
                },
                ..s.state
            },
            ..s
        },
        actions: seq![
            ActionView::Marker("SESSION "@ + stamp),
            ActionView::Publish,
            ActionView::LoadEnv,
        ],
    }
}

/// The environment is there or not.
pub open spec fn after_env(
    service: Service,
    s: SessionView,
    env: Result<(), String>,
    now: i64,
) -> Next {
    match env {
        Err(reason) => finish(
            s,
            Seq::empty(),
            Phase::ConfigFailed,
            "CONFIG FAILED: "@ + reason@,
        ),
        Ok(_) => if service.build_cmd is Some {
            Next {
                session: SessionView {
                    stage: Stage::BuildSpawn,
                    state: StateView { build_started_at: Some(now), ..s.state },
                    ..s
                },
                actions: seq![
                    ActionView::Marker("BUILDING"@),
                    ActionView::Publish,
                    ActionView::SpawnBuild,
                ],
            }
        } else {
            Next {
                session: SessionView { stage: Stage::Preflight, ..s },
                actions: seq![ActionView::FindListeners],
            }
        },
    }
}

/// The child is up: record it and watch it.
pub open spec fn after_spawn(
    s: SessionView,
    stage: Stage,
    pid: u32,
    pgid: i32,
    watch: ActionView,
) -> Next {
    Next {
        session: SessionView {
            stage,
            state: StateView { child_pid: Some(pid), child_pgid: Some(pgid), ..s.state },
            ..s
        },
        actions: seq![ActionView::Publish, watch],
    }
}

/// How a child ended, of the outcomes that a watch without a probe can have.
pub open spec fn child_end(outcome: Outcome) -> ChildEnd {
    match outcome {
        Outcome::Exited(code) => ChildEnd::Exited { code },
        Outcome::TimedOut => ChildEnd::TimedOut,
        _ => ChildEnd::Terminated,
    }
}

/// The child has ended: end what is left of its process group, and only then see
/// what time it is.
pub open spec fn end_group(s: SessionView, stage: Stage) -> Next {
    Next {
        session: SessionView { stage, ..s },
        actions: seq![ActionView::Terminate, ActionView::ReadClock],
    }
}

/// The process group of `build-cmd` is over, at the time `now`.
pub open spec fn after_build(service: Service, s: SessionView, end: ChildEnd, now: i64) -> Next {
    let ended = SessionView {
        state: StateView { build_finished_at: Some(now), ..s.state },
        ..s
    };
    match end {
        ChildEnd::Exited { code } => {
            let exited = SessionView {
                state: StateView { build_exit_code: Some(code), ..ended.state },
                ..ended
            };
            if code == 0 {
                Next {
                    session: SessionView { stage: Stage::Preflight, ..exited },
                    actions: seq![
                        ActionView::Marker("BUILD SUCCEED"@),
                        ActionView::Publish,
                        ActionView::FindListeners,
                    ],
                }
            } else {
                finish(
                    exited,
                    Seq::empty(),
                    Phase::BuildFailed,
                    around("BUILD FAILED (exit code "@, text::signed_decimal(code as int), ")"@),
                )
            }
        },
        ChildEnd::TimedOut => finish(
            ended,
            Seq::empty(),
            Phase::BuildFailed,
            around(
                "BUILD FAILED (timeout after "@,
                text::decimal(build_seconds(service) as nat),
                "s)"@,
            ),
        ),
        ChildEnd::Terminated => Next {
            session: SessionView { stage: Stage::BuildCancel, ..ended },
            actions: seq![ActionView::CheckStop],
        },
    }
}

/// The build timeout of a service; 0 means none.
pub open spec fn build_seconds(service: Service) -> u64 {
    match service.build_timeout_seconds {
        Some(seconds) => seconds,
        None => 0,
    }
}

/// The probe port of a target, or 0.
pub open spec fn port_number(target: ProbeTarget) -> u16 {
    match config::target_port(target) {
        Some(port) => port,
        None => 0,
    }
}

/// The listeners before `run-cmd` are known: warn of a foreign one, and start.
pub open spec fn after_preflight(
    settings: Settings,
    target: ProbeTarget,
    s: SessionView,
    listeners: Seq<(u32, String)>,
    now: i64,
) -> Next {
    let foreign = port::first_owner(target, settings, listeners);
    let warning = match foreign {
        Some(listener) => seq![
            ActionView::Marker(
                "WARNING: PORT "@ + text::decimal(port_number(target) as nat)
                    + " ALREADY IN USE BY "@ + port::listener_text(listener),
            ),
        ],
        None => Seq::empty(),
    };
    Next {
        session: SessionView {
            stage: Stage::RunSpawn,
            preflight: foreign,
            state: StateView {
                phase: Phase::Starting,
                run_started_at: Some(now),
                child_kind: Some("run"@),
                probe: state::ProbeView {
                    foreign_port_pid: match foreign {
                        Some(listener) => Some(listener.pid),
                        None => s.state.probe.foreign_port_pid,
                    },
                    ..s.state.probe
                },
                ..s.state
            },
        },
        actions: warning + seq![
            ActionView::BeginRun,
            ActionView::Marker("RUNNING"@),
            ActionView::Publish,
            ActionView::SpawnRun,
        ],
    }
}

/// The first watch over `run-cmd` has ended.
pub open spec fn after_probe(target: ProbeTarget, s: SessionView, outcome: Outcome) -> Next {
    match outcome {
        Outcome::Ready { attempts } => Next {
            session: SessionView { stage: Stage::RunVerify { attempts }, ..s },
            actions: seq![ActionView::FindListeners],
        },
        Outcome::ProbeFailed { attempts, failures, last_error } => finish(
            SessionView {
                state: StateView {
                    probe: state::ProbeView {
                        attempts,
                        last_error: Some(last_error@),
                        ..s.state.probe
                    },
                    ..s.state
                },
                ..s
            },
            // The child is stopped, so the next `start` rebuilds and runs cleanly
            // instead of tripping over a half-ready process.
            seq![ActionView::Terminate],
            Phase::ProbeFailed,
            "PROBE FAILED: "@ + text::decimal(failures as nat) + " consecutive failures, last: "@
                + last_error@ + " ("@ + config::target_text(target) + ")"@,
        ),
        Outcome::Exited(code) => end_group(s, Stage::RunEnded { code }),
        _ => Next {
            session: SessionView { stage: Stage::RunTerminated, ..s },
            actions: seq![ActionView::Terminate, ActionView::CheckStop],
        },
    }
}

/// The process group of `run-cmd`, which exited before it was ready, is over, at
/// the time `now`.
pub open spec fn after_run(s: SessionView, code: i32, now: i64) -> Next {
    Next {
        session: SessionView {
            stage: Stage::RunExit { code },
            state: StateView {
                run_exit_code: Some(code),
                run_finished_at: Some(now),
                ..s.state
            },
            ..s
        },
        actions: seq![ActionView::CheckStop],
    }
}

/// Why a probe that passed does not count.
pub open spec fn foreign_reason(service: Service, target: ProbeTarget, listener: Listener) -> Seq<
    char,
> {
    "port "@ + text::decimal(port_number(target) as nat) + " is owned by "@ + port::listener_text(
        listener,
    ) + ", not by service \""@ + service.name@ + "\""@
}

/// The line for a probe that passed.
pub open spec fn passed_line(target: ProbeTarget, attempts: u32) -> Seq<char> {
    match target {
        ProbeTarget::NoProbe => "PROBE PASSED (NO PROBE CONFIGURED)"@,
        _ => around("PROBE PASSED (attempt "@, text::decimal(attempts as nat), ")"@),
    }
}

/// The owner of the probe port is known.
pub open spec fn after_verify(
    service: Service,
    target: ProbeTarget,
    s: SessionView,
    attempts: u32,
    owner: Ownership,
    now: i64,
) -> Next {
    match owner {
        Ownership::ConfirmedForeign(listener) => {
            let reason = foreign_reason(service, target, listener);
            finish(
                SessionView {
                    state: StateView {
                        probe: state::ProbeView {
                            attempts,
                            last_error: Some(reason),
                            ..s.state.probe
                        },
                        ..s.state
                    },
                    ..s
                },
                seq![ActionView::Terminate],
                Phase::ProbeFailed,
                "PROBE FAILED: "@ + reason,
            )
        },
        _ => {
            let warning = match owner {
                Ownership::Unexpected(listener) => seq![
                    ActionView::Marker(
                        "WARNING: PORT "@ + text::decimal(port_number(target) as nat)
                            + " IS HELD BY "@ + port::listener_text(listener)
                            + " (not part of this service); the probe result may be misleading"@,
                    ),
                ],
                _ => Seq::empty(),
            };
            Next {
                session: SessionView {
                    stage: Stage::ReadyWait,
                    state: StateView {
                        ready_at: Some(now),
                        ready_via: Some(config::target_kind(target)),
                        probe: state::ProbeView { attempts, ..s.state.probe },
                        phase: Phase::Running,
                        ..s.state
                    },
                    ..s
                },
                actions: warning + seq![
                    ActionView::Marker(passed_line(target, attempts)),
                    ActionView::Publish,
                    ActionView::EndNarrative,
                    ActionView::WatchReady,
                ],
            }
        },
    }
}

/// The process group of the ready `run-cmd` is over, at the time `now`, and
/// `watched_ms` after it was ready.
pub open spec fn after_ready(s: SessionView, end: ChildEnd, watched_ms: i64, now: i64) -> Next {
    let ended = SessionView { state: StateView { run_finished_at: Some(now), ..s.state }, ..s };
    match end {
        ChildEnd::Exited { code } => Next {
            session: SessionView {
                stage: Stage::ReadyExit { code, ready_ms: watched_ms },
                state: StateView { run_exit_code: Some(code), ..ended.state },
                ..ended
            },
            actions: seq![ActionView::CheckStop],
        },
        _ => Next {
            session: SessionView {
                stage: Stage::ReadyTerminated { ready_ms: watched_ms },
                ..ended
            },
            actions: seq![ActionView::CheckStop],
        },
    }
}

/// It is known what time it is, now that the child's process group is over.
pub open spec fn after_clock(service: Service, s: SessionView, watched_ms: i64, now: i64) -> Next {
    match s.stage {
        Stage::BuildEnded { end } => after_build(service, s, end, now),
        Stage::RunEnded { code } => after_run(s, code, now),
        Stage::ReadyEnded { end } => after_ready(s, end, watched_ms, now),
        _ => Next { session: s, actions: Seq::empty() },
    }
}

/// It is known whether a stop was asked for.
pub open spec fn after_stop_check(s: SessionView, stop: bool) -> Next {
    match s.stage {
        Stage::BuildCancel => finish(
            s,
            Seq::empty(),
            Phase::Stopped,
            if stop {
                "STOPPED (build cancelled)"@
            } else {
                "STOPPED (signal received while building)"@
            },
        ),
        Stage::RunExit { code } => if stop {
            finish(s, Seq::empty(), Phase::Stopped, "STOPPED"@)
        } else {
            finish(
                s,
                Seq::empty(),
                Phase::RunFailed,
                around("RUNNING FAILED (exit code "@, text::signed_decimal(code as int), ")"@),
            )
        },
        Stage::RunTerminated => finish(
            s,
            Seq::empty(),
            Phase::Stopped,
            if stop {
                "STOPPED"@
            } else {
                "STOPPED (signal received)"@
            },
        ),
        Stage::ReadyExit { code, ready_ms } => if stop {
            finish_ready(s, Phase::Stopped, "STOPPED"@)
        } else {
            finish_ready(
                s,
                Phase::Exited,
                "SERVICE EXITED (exit code "@ + text::signed_decimal(code as int)
                    + ", ready for "@ + util::duration(ready_ms as int) + ")"@,
            )
        },
        Stage::ReadyTerminated { ready_ms } => if stop {
            finish_ready(s, Phase::Stopped, "STOPPED"@)
        } else {
            finish_ready(
                s,
                Phase::Exited,
                around(
                    "SERVICE EXITED (terminated, ready for "@,
                    util::duration(ready_ms as int),
                    ")"@,
                ),
            )
        },
        _ => Next { session: s, actions: Seq::empty() },
    }
}

/// What a session does about an event that it waits for.
pub open spec fn next(
    service: Service,
    settings: Settings,
    target: ProbeTarget,
    s: SessionView,
    event: Event,
    now: i64,
) -> Next {
    match event {
        Event::Begin { stamp } => after_begin(service, s, stamp@),
        Event::Env(env) => after_env(service, s, env, now),
        Event::Spawned { pid, pgid } => if s.stage == Stage::BuildSpawn {
            after_spawn(
                s,
                Stage::BuildWait,
                pid,
                pgid,
                ActionView::WatchBuild { timeout_seconds: build_seconds(service) },
            )
        } else {
            after_spawn(s, Stage::RunProbe, pid, pgid, ActionView::WatchProbe)
        },
        Event::SpawnFailed(reason) => if s.stage == Stage::BuildSpawn {
            finish(
                SessionView { state: StateView { build_finished_at: Some(now), ..s.state }, ..s },
                Seq::empty(),
                Phase::BuildFailed,
                around("BUILD FAILED (cannot spawn: "@, reason@, ")"@),
            )
        } else {
            finish(
                SessionView { state: StateView { run_finished_at: Some(now), ..s.state }, ..s },
                Seq::empty(),
                Phase::RunFailed,
                around("RUNNING FAILED (cannot spawn: "@, reason@, ")"@),
            )
        },
        Event::Ended { outcome } => match s.stage {
            Stage::BuildWait => end_group(s, Stage::BuildEnded { end: child_end(outcome) }),
            Stage::RunProbe => after_probe(target, s, outcome),
            _ => end_group(s, Stage::ReadyEnded { end: child_end(outcome) }),
        },
        Event::Clock { watched_ms } => after_clock(service, s, watched_ms, now),
        Event::Listeners { listeners, groups } => match s.stage {
            Stage::RunVerify { attempts } => after_verify(
                service,
                target,
                s,
                attempts,
                port::owner(
                    target,
                    settings,
                    match s.state.child_pgid {
                        Some(pgid) => pgid,
                        None => 0,
                    },
                    s.preflight,
                    listeners@,
                    groups@,
                ),
                now,
            ),
            _ => after_preflight(settings, target, s, listeners@, now),
        },
        Event::StopRequested(stop) => after_stop_check(s, stop),
    }
}

// ---------------------------------------------------------------- the machine
fn line3(head: &str, what: &str, tail: &str) -> (out: String)
    ensures
        out@ == around(head@, what@, tail@),
{
    let mut out = head.to_string();
    out.append(what);
    out.append(tail);
    out
}

fn signed_text(n: i32) -> (out: String)
    ensures
        out@ == text::signed_decimal(n as int),
{
    let mut out = String::new();
    text::push_i64(&mut out, n as i64);
    assert(out@ =~= text::signed_decimal(n as int));
    out
}

fn end_of(outcome: Outcome) -> (r: ChildEnd)
    ensures
        r == child_end(outcome),
{
    match outcome {
        Outcome::Exited(code) => ChildEnd::Exited { code },
        Outcome::TimedOut => ChildEnd::TimedOut,
        _ => ChildEnd::Terminated,
    }
}

fn no_port(port: Option<u16>) -> (r: u16)
    ensures
        r == match port {
            Some(port) => port,
            None => 0,
        },
{
    match port {
        Some(port) => port,
        None => 0,
    }
}

/// The record with which a session begins.
pub open spec fn initial_state(
    service: Service,
    target: ProbeTarget,
    generation: u64,
    hash: Seq<char>,
    pid: u32,
    ticks: Option<u64>,
    now: i64,
) -> StateView {
    let fresh = state::fresh(service.name@, generation, hash, pid, ticks, now);
    StateView {
        probe: state::ProbeView {
            kind: config::target_kind(target),
            target: config::target_text(target),
            ..fresh.probe
        },
        child_kind: Some(
            if service.build_cmd is Some {
                "build"@
            } else {
                "run"@
            },
        ),
        ..fresh
    }
}

impl Session {
    /// The session of a service that the configuration declares.
    pub fn open(
        loaded: LoadedConfig,
        config_path: &FsPath,
        name: &str,
        generation: u64,
        pid: u32,
        ticks: Option<u64>,
        now: i64,
    ) -> (r: Result<Session, String>)
        ensures
            match config::service_index(loaded.config.services@, name@) {
                Some(i) => r matches Ok(session) && {
                    let service = loaded.config.services@[i];
                    &&& session.service == service
                    &&& session.settings == loaded.config.settings
                    &&& session.target == config::service_target(service)
                    &&& session.stage == Stage::New
                    &&& session.preflight is None
                    &&& session.state@ == initial_state(
                        service,
                        session.target,
                        generation,
                        loaded.hash@,
                        pid,
                        ticks,
                        now,
                    )
                },
                None => r matches Err(message) && message@ == "service \""@ + name@
                    + "\" not found in "@ + paths::shown(config_path@),
            },
    {
        match loaded.config.position(name) {
            Some(at) => {
                let mut services = loaded.config.services;
                let service = services.remove(at);
                let target = service.target();
                let mut state = State::new(
                    service.name.as_str(),
                    generation,
                    loaded.hash.as_str(),
                    pid,
                    ticks,
                    now,
                );
                state.probe.kind = target.kind_str().to_string();
                state.probe.target = target.describe();
                state.child_kind = Some(
                    if service.build_cmd.is_some() {
                        "build".to_string()
                    } else {
                        "run".to_string()
                    },
                );
                Ok(
                    Session {
                        service,
                        settings: loaded.config.settings,
                        target,
                        state,
                        preflight: None,
                        stage: Stage::New,
                    },
                )
            },
            None => {
                let mut out = "service \"".to_string();
                out.append(name);
                out.append("\" not found in ");
                out.append(config_path.display().as_str());
                Err(out)
            },
        }
    }

    /// Grace period of the session's children.
    pub fn stop_timeout(&self) -> (r: u64)
        ensures
            r == supervise::at_least_one(
                match self.service.stop_timeout_seconds {
                    Some(seconds) => seconds as int,
                    None => self.settings.stop_timeout_seconds as int,
                },
            ),
    {
        let seconds = self.service.stop_timeout(&self.settings);
        if seconds < 1 {
            1
        } else {
            seconds
        }
    }

    /// Record a terminal phase and leave with the exit code for it.
    fn finish(&mut self, before: Vec<Action>, phase: Phase, line: String) -> (r: Vec<Action>)
        ensures
            same_subject(*old(self), *final(self)),
            answer(*final(self), r@) == finish(
                old(self).model(),
                actions_view(before@),
                phase,
                line@,
            ),
    {
        let ghost text = line@;
        let code = phase.start_exit_code();
        self.state.phase = phase;
        self.stage = Stage::Done { code };
        let mut out = before;
        out.push(Action::Marker(line));
        out.push(Action::Publish);
        out.push(Action::Exit(code));
        assert(actions_view(out@) =~= actions_view(before@) + seq![
            ActionView::Marker(text),
            ActionView::Publish,
            ActionView::Exit(code),
        ]);
        out
    }

    fn finish_ready(&mut self, phase: Phase, line: String) -> (r: Vec<Action>)
        ensures
            same_subject(*old(self), *final(self)),
            answer(*final(self), r@) == finish_ready(
                old(self).model(),
                phase,
                line@,
            ),
    {
        let ghost text = line@;
        let code = phase.start_exit_code();
        self.state.phase = phase;
        self.stage = Stage::Done { code };
        let mut out: Vec<Action> = Vec::new();
        out.push(Action::Marker(line));
        out.push(Action::Publish);
        out.push(Action::RemoveConsole);
        out.push(Action::Exit(code));
        assert(actions_view(out@) =~= seq![
            ActionView::Marker(text),
            ActionView::Publish,
            ActionView::RemoveConsole,
            ActionView::Exit(code),
        ]);
        out
    }
}

impl Session {
    /// Begin: narrate, and record the phase that comes first.
    fn on_begin(&mut self, stamp: String) -> (r: Vec<Action>)
        ensures
            same_subject(*old(self), *final(self)),
            answer(*final(self), r@) == after_begin(old(self).service, old(self).model(), stamp@),
    {
        let mut line = "SESSION ".to_string();
        line.append(stamp.as_str());
        let ghost text = line@;
        self.state.phase = if self.service.build_cmd.is_some() {
            Phase::Building
        } else {
            Phase::Starting
        };
        self.stage = Stage::Env;
        let out = vec![Action::Marker(line), Action::Publish, Action::LoadEnv];
        assert(actions_view(out@) =~= seq![
            ActionView::Marker(text),
            ActionView::Publish,
            ActionView::LoadEnv,
        ]);
        out
    }

    /// The environment is there or not.
    fn on_env(&mut self, env: Result<(), String>, now: i64) -> (r: Vec<Action>)
        ensures
            same_subject(*old(self), *final(self)),
            answer(*final(self), r@) == after_env(old(self).service, old(self).model(), env, now),
    {
        match env {
            Err(reason) => {
                let mut line = "CONFIG FAILED: ".to_string();
                line.append(reason.as_str());
                let none: Vec<Action> = Vec::new();
                assert(actions_view(none@) =~= Seq::empty());
                self.finish(none, Phase::ConfigFailed, line)
            },
            Ok(_) => if self.service.build_cmd.is_some() {
                self.state.build_started_at = Some(now);
                self.stage = Stage::BuildSpawn;
                let line = "BUILDING".to_string();
                let out = vec![Action::Marker(line), Action::Publish, Action::SpawnBuild];
                assert(actions_view(out@) =~= seq![
                    ActionView::Marker("BUILDING"@),
                    ActionView::Publish,
                    ActionView::SpawnBuild,
                ]);
                out
            } else {
                self.stage = Stage::Preflight;
                let out = vec![Action::FindListeners];
                assert(actions_view(out@) =~= seq![ActionView::FindListeners]);
                out
            },
        }
    }

    /// The child is up: record it and watch it.
    fn on_spawn(&mut self, stage: Stage, pid: u32, pgid: i32, watch: Action) -> (r: Vec<Action>)
        ensures
            same_subject(*old(self), *final(self)),
            answer(*final(self), r@) == after_spawn(old(self).model(), stage, pid, pgid, watch@),
    {
        self.state.child_pid = Some(pid);
        self.state.child_pgid = Some(pgid);
        self.stage = stage;
        let ghost asked = watch@;
        let out = vec![Action::Publish, watch];
        assert(actions_view(out@) =~= seq![ActionView::Publish, asked]);
        out
    }

    /// The child has ended: end what is left of its process group, and only then
    /// see what time it is.
    fn on_end(&mut self, stage: Stage) -> (r: Vec<Action>)
        ensures
            same_subject(*old(self), *final(self)),
            answer(*final(self), r@) == end_group(old(self).model(), stage),
    {
        self.stage = stage;
        let out = vec![Action::Terminate, Action::ReadClock];
        assert(actions_view(out@) =~= seq![ActionView::Terminate, ActionView::ReadClock]);
        out
    }

    /// The process group of `build-cmd` is over.
    fn on_build_end(&mut self, end: ChildEnd, now: i64) -> (r: Vec<Action>)
        ensures
            same_subject(*old(self), *final(self)),
            answer(*final(self), r@) == after_build(old(self).service, old(self).model(), end, now),
    {
        self.state.build_finished_at = Some(now);
        let none: Vec<Action> = Vec::new();
        assert(actions_view(none@) =~= Seq::empty());
        match end {
            ChildEnd::Exited { code } => {
                self.state.build_exit_code = Some(code);
                if code == 0 {
                    self.stage = Stage::Preflight;
                    let line = "BUILD SUCCEED".to_string();
                    let out = vec![Action::Marker(line), Action::Publish, Action::FindListeners];
                    assert(actions_view(out@) =~= seq![
                        ActionView::Marker("BUILD SUCCEED"@),
                        ActionView::Publish,
                        ActionView::FindListeners,
                    ]);
                    out
                } else {
                    let line = line3(
                        "BUILD FAILED (exit code ",
                        signed_text(code).as_str(),
                        ")",
                    );
                    self.finish(none, Phase::BuildFailed, line)
                }
            },
            ChildEnd::TimedOut => {
                let seconds = self.service.build_timeout();
                let line = line3(
                    "BUILD FAILED (timeout after ",
                    text::u64_text(seconds).as_str(),
                    "s)",
                );
                self.finish(none, Phase::BuildFailed, line)
            },
            ChildEnd::Terminated => {
                self.stage = Stage::BuildCancel;
                let out = vec![Action::CheckStop];
                assert(actions_view(out@) =~= seq![ActionView::CheckStop]);
                out
            },
        }
    }

    /// The listeners before `run-cmd` are known: warn of a foreign one, and start.
    fn on_preflight(&mut self, listeners: &Vec<(u32, String)>, now: i64) -> (r: Vec<Action>)
        ensures
            same_subject(*old(self), *final(self)),
            answer(*final(self), r@) == after_preflight(
                old(self).settings,
                old(self).target,
                old(self).model(),
                listeners@,
                now,
            ),
    {
        let foreign = port::preflight(&self.target, &self.settings, listeners);
        let mut out: Vec<Action> = Vec::new();
        if let Some(listener) = &foreign {
            self.state.probe.foreign_port_pid = Some(listener.pid);
            let port = no_port(self.target.local_port());
            let mut line = "WARNING: PORT ".to_string();
            text::push_u64(&mut line, port as u64);
            line.append(" ALREADY IN USE BY ");
            line.append(listener.describe().as_str());
            out.push(Action::Marker(line));
        }
        let ghost warning = actions_view(out@);
        assert(warning =~= match foreign {
            Some(listener) => seq![
                ActionView::Marker(
                    "WARNING: PORT "@ + text::decimal(port_number(self.target) as nat)
                        + " ALREADY IN USE BY "@ + port::listener_text(listener),
                ),
            ],
            None => Seq::empty(),
        });
        self.preflight = foreign;
        self.state.phase = Phase::Starting;
        self.state.run_started_at = Some(now);
        self.state.child_kind = Some("run".to_string());
        self.stage = Stage::RunSpawn;
        let line = "RUNNING".to_string();
        out.push(Action::BeginRun);
        out.push(Action::Marker(line));
        out.push(Action::Publish);
        out.push(Action::SpawnRun);
        assert(actions_view(out@) =~= warning + seq![
            ActionView::BeginRun,
            ActionView::Marker("RUNNING"@),
            ActionView::Publish,
            ActionView::SpawnRun,
        ]);
        out
    }

    /// The first watch over `run-cmd` has ended.
    fn on_probe_end(&mut self, outcome: Outcome) -> (r: Vec<Action>)
        requires
            run_outcome(outcome),
        ensures
            same_subject(*old(self), *final(self)),
            answer(*final(self), r@) == after_probe(old(self).target, old(self).model(), outcome),
    {
        match outcome {
            Outcome::Ready { attempts } => {
                self.stage = Stage::RunVerify { attempts };
                let out = vec![Action::FindListeners];
                assert(actions_view(out@) =~= seq![ActionView::FindListeners]);
                out
            },
            Outcome::ProbeFailed { attempts, failures, last_error } => {
                let mut line = "PROBE FAILED: ".to_string();
                text::push_u64(&mut line, failures as u64);
                line.append(" consecutive failures, last: ");
                line.append(last_error.as_str());
                line.append(" (");
                line.append(self.target.describe().as_str());
                line.append(")");
                self.state.probe.attempts = attempts;
                self.state.probe.last_error = Some(last_error);
                let ended = vec![Action::Terminate];
                assert(actions_view(ended@) =~= seq![ActionView::Terminate]);
                self.finish(ended, Phase::ProbeFailed, line)
            },
            Outcome::Exited(code) => self.on_end(Stage::RunEnded { code }),
            _ => {
                self.stage = Stage::RunTerminated;
                let out = vec![Action::Terminate, Action::CheckStop];
                assert(actions_view(out@) =~= seq![ActionView::Terminate, ActionView::CheckStop]);
                out
            },
        }
    }

    /// The owner of the probe port is known.
    fn on_verify(&mut self, attempts: u32, owner: Ownership, now: i64) -> (r: Vec<Action>)
        ensures
            same_subject(*old(self), *final(self)),
            answer(*final(self), r@) == after_verify(
                old(self).service,
                old(self).target,
                old(self).model(),
                attempts,
                owner,
                now,
            ),
    {
        let port = no_port(self.target.local_port());
        let mut out: Vec<Action> = Vec::new();
        match &owner {
            Ownership::ConfirmedForeign(listener) => {
                let mut reason = "port ".to_string();
                text::push_u64(&mut reason, port as u64);
                reason.append(" is owned by ");
                reason.append(listener.describe().as_str());
                reason.append(", not by service \"");
                reason.append(self.service.name.as_str());
                reason.append("\"");
                let mut line = "PROBE FAILED: ".to_string();
                line.append(reason.as_str());
                self.state.probe.last_error = Some(reason);
                self.state.probe.attempts = attempts;
                out.push(Action::Terminate);
                assert(actions_view(out@) =~= seq![ActionView::Terminate]);
                return self.finish(out, Phase::ProbeFailed, line);
            },
            Ownership::Unexpected(listener) => {
                let mut line = "WARNING: PORT ".to_string();
                text::push_u64(&mut line, port as u64);
                line.append(" IS HELD BY ");
                line.append(listener.describe().as_str());
                line.append(" (not part of this service); the probe result may be misleading");
                out.push(Action::Marker(line));
            },
            _ => {},
        }
        let ghost warning = actions_view(out@);
        assert(warning =~= match owner {
            Ownership::Unexpected(listener) => seq![
                ActionView::Marker(
                    "WARNING: PORT "@ + text::decimal(port_number(self.target) as nat)
                        + " IS HELD BY "@ + port::listener_text(listener)
                        + " (not part of this service); the probe result may be misleading"@,
                ),
            ],
            _ => Seq::empty(),
        });
        self.state.ready_at = Some(now);
        self.state.ready_via = Some(self.target.kind_str().to_string());
        self.state.probe.attempts = attempts;
        self.state.phase = Phase::Running;
        self.stage = Stage::ReadyWait;
        let line = match &self.target {
            ProbeTarget::NoProbe => "PROBE PASSED (NO PROBE CONFIGURED)".to_string(),
            _ => line3("PROBE PASSED (attempt ", text::u64_text(attempts as u64).as_str(), ")"),
        };
        let ghost passed = line@;
        out.push(Action::Marker(line));
        out.push(Action::Publish);
        out.push(Action::EndNarrative);
        out.push(Action::WatchReady);
        assert(actions_view(out@) =~= warning + seq![
            ActionView::Marker(passed),
            ActionView::Publish,
            ActionView::EndNarrative,
            ActionView::WatchReady,
        ]);
        out
    }

    /// It is known what time it is, now that the child's process group is over.
    fn on_clock(&mut self, watched_ms: i64, now: i64) -> (r: Vec<Action>)
        ensures
            same_subject(*old(self), *final(self)),
            answer(*final(self), r@) == after_clock(
                old(self).service,
                old(self).model(),
                watched_ms,
                now,
            ),
    {
        let out = vec![Action::CheckStop];
        assert(actions_view(out@) =~= seq![ActionView::CheckStop]);
        match self.stage {
            Stage::BuildEnded { end } => self.on_build_end(end, now),
            Stage::RunEnded { code } => {
                self.state.run_exit_code = Some(code);
                self.state.run_finished_at = Some(now);
                self.stage = Stage::RunExit { code };
                out
            },
            Stage::ReadyEnded { end } => {
                self.state.run_finished_at = Some(now);
                match end {
                    ChildEnd::Exited { code } => {
                        self.state.run_exit_code = Some(code);
                        self.stage = Stage::ReadyExit { code, ready_ms: watched_ms };
                    },
                    _ => {
                        self.stage = Stage::ReadyTerminated { ready_ms: watched_ms };
                    },
                }
                out
            },
            _ => {
                let none: Vec<Action> = Vec::new();
                assert(actions_view(none@) =~= Seq::empty());
                none
            },
        }
    }

    /// It is known whether a stop was asked for.
    fn on_stop_check(&mut self, stop: bool) -> (r: Vec<Action>)
        ensures
            same_subject(*old(self), *final(self)),
            answer(*final(self), r@) == after_stop_check(old(self).model(), stop),
    {
        let none: Vec<Action> = Vec::new();
        assert(actions_view(none@) =~= Seq::empty());
        match self.stage {
            Stage::BuildCancel => {
                let line = if stop {
                    "STOPPED (build cancelled)".to_string()
                } else {
                    "STOPPED (signal received while building)".to_string()
                };
                self.finish(none, Phase::Stopped, line)
            },
            Stage::RunExit { code } => if stop {
                self.finish(none, Phase::Stopped, "STOPPED".to_string())
            } else {
                let line = line3("RUNNING FAILED (exit code ", signed_text(code).as_str(), ")");
                self.finish(none, Phase::RunFailed, line)
            },
            Stage::RunTerminated => {
                let line = if stop {
                    "STOPPED".to_string()
                } else {
                    "STOPPED (signal received)".to_string()
                };
                self.finish(none, Phase::Stopped, line)
            },
            Stage::ReadyExit { code, ready_ms } => if stop {
                self.finish_ready(Phase::Stopped, "STOPPED".to_string())
            } else {
                let mut line = "SERVICE EXITED (exit code ".to_string();
                line.append(signed_text(code).as_str());
                line.append(", ready for ");
                line.append(util::format_duration_ms(ready_ms).as_str());
                line.append(")");
                self.finish_ready(Phase::Exited, line)
            },
            Stage::ReadyTerminated { ready_ms } => if stop {
                self.finish_ready(Phase::Stopped, "STOPPED".to_string())
            } else {
                let line = line3(
                    "SERVICE EXITED (terminated, ready for ",
                    util::format_duration_ms(ready_ms).as_str(),
                    ")",
                );
                self.finish_ready(Phase::Exited, line)
            },
            _ => none,
        }
    }

    /// Take in what happened and say what to do. `now` is the time of day in
    /// milliseconds.
    pub fn step(&mut self, event: Event, now: i64) -> (r: Vec<Action>)
        requires
            expects(old(self).stage, event),
        ensures
            same_subject(*old(self), *final(self)),
            answer(*final(self), r@) == next(
                old(self).service,
                old(self).settings,
                old(self).target,
                old(self).model(),
                event,
                now,
            ),
    {
        let none: Vec<Action> = Vec::new();
        assert(actions_view(none@) =~= Seq::empty());
        match event {
            Event::Begin { stamp } => self.on_begin(stamp),
            Event::Env(env) => self.on_env(env, now),
            Event::Spawned { pid, pgid } => match self.stage {
                Stage::BuildSpawn => {
                    let timeout_seconds = self.service.build_timeout();
                    self.on_spawn(
                        Stage::BuildWait,
                        pid,
                        pgid,
                        Action::WatchBuild { timeout_seconds },
                    )
                },
                _ => self.on_spawn(Stage::RunProbe, pid, pgid, Action::WatchProbe),
            },
            Event::SpawnFailed(reason) => match self.stage {
                Stage::BuildSpawn => {
                    self.state.build_finished_at = Some(now);
                    let line = line3("BUILD FAILED (cannot spawn: ", reason.as_str(), ")");
                    self.finish(none, Phase::BuildFailed, line)
                },
                _ => {
                    self.state.run_finished_at = Some(now);
                    let line = line3("RUNNING FAILED (cannot spawn: ", reason.as_str(), ")");
                    self.finish(none, Phase::RunFailed, line)
                },
            },
            Event::Ended { outcome } => match self.stage {
                Stage::BuildWait => {
                    let end = end_of(outcome);
                    self.on_end(Stage::BuildEnded { end })
                },
                Stage::RunProbe => self.on_probe_end(outcome),
                _ => {
                    let end = end_of(outcome);
                    self.on_end(Stage::ReadyEnded { end })
                },
            },
            Event::Clock { watched_ms } => self.on_clock(watched_ms, now),
            Event::Listeners { listeners, groups } => match self.stage {
                Stage::RunVerify { attempts } => {
                    let pgid: i32 = match self.state.child_pgid {
                        Some(pgid) => pgid,
                        None => 0,
                    };
                    let owner = port::verify(
                        &self.target,
                        &self.settings,
                        pgid,
                        self.preflight.as_ref(),
                        &listeners,
                        &groups,
                    );
                    self.on_verify(attempts, owner, now)
                },
                _ => self.on_preflight(&listeners, now),
            },
            Event::StopRequested(stop) => self.on_stop_check(stop),
        }
    }
}

} // verus!

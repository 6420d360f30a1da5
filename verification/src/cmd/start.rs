//! `agproc start` / `agproc restart` — build, run and wait for the probe.
//!
//! The CLI is deliberately thin: it takes the orchestration lock, spawns a
//! detached runner for the service, forwards the runner's console output, and
//! waits until the state file reaches a settled phase. All the process handling
//! lives in the runner, so a killed CLI never leaves a half-finished start behind.
//! This module decides each step; whoever runs it performs the actions in order
//! and reports back what the last one, always a question, came to.

use vstd::prelude::*;
use vstd::string::*;

use crate::exit;
use crate::paths;
use crate::paths::FsPath;
use crate::state;
use crate::state::{Loaded, Phase, State};
use crate::supervise;
use crate::text;
use crate::util;

verus! {

pub struct Request {
    pub services: Vec<String>,
    pub restart: bool,
    /// How long to wait, in seconds.
    pub timeout: Option<u64>,
}

/// A failed start, reduced to the information the aggregate summary needs.
#[derive(Debug)]
pub struct Failed {
    pub code: i32,
    pub reason: String,
}

impl Failed {
    pub fn new(code: i32, reason: String) -> (out: Failed)
        ensures
            out.code == code,
            out.reason == reason,
    {
        Failed { code, reason }
    }
}

#[derive(Debug, Clone, Copy, PartialEq, Eq, Structural)]
pub enum Started {
    Ready,
    AlreadyRunning,
}

/// How a start ended, as plain values.
pub open spec fn result_view(r: Result<Started, Failed>) -> Result<Started, (i32, Seq<char>)> {
    match r {
        Ok(started) => Ok(started),
        Err(failed) => Err((failed.code, failed.reason@)),
    }
}

// -------------------------------------------------------------------- settle
/// What a settled phase means for a start.
pub open spec fn settlement(phase: Phase) -> Result<Started, (i32, Seq<char>)> {
    match phase {
        Phase::Running => Ok(Started::Ready),
        Phase::ConfigFailed => Err((exit::CONFIG, "configuration error"@)),
        Phase::BuildFailed => Err((exit::BUILD_FAILED, "build failed"@)),
        Phase::RunFailed => Err((exit::RUN_FAILED, "running failed"@)),
        Phase::Exited => Err(
            (exit::RUN_FAILED, "running failed (exited right after the probe passed)"@),
        ),
        Phase::ProbeFailed => Err((exit::PROBE_FAILED, "probe failed"@)),
        Phase::Stopped => Err((exit::SUPERSEDED, "stopped by another agproc invocation"@)),
        Phase::Stale => Err(
            (exit::RUN_FAILED, "the runner disappeared before recording an outcome"@),
        ),
        _ => Err((exit::GENERIC, "unexpected phase \""@ + state::phase_name(phase) + "\""@)),
    }
}

/// What a settled phase means for a start.
pub fn settle(phase: Phase) -> (r: Result<Started, Failed>)
    ensures
        result_view(r) == settlement(phase),
{
    match phase {
        Phase::Running => Ok(Started::Ready),
        Phase::ConfigFailed => Err(Failed::new(exit::CONFIG, "configuration error".to_string())),
        Phase::BuildFailed => Err(Failed::new(exit::BUILD_FAILED, "build failed".to_string())),
        Phase::RunFailed => Err(Failed::new(exit::RUN_FAILED, "running failed".to_string())),
        Phase::Exited => Err(
            Failed::new(
                exit::RUN_FAILED,
                "running failed (exited right after the probe passed)".to_string(),
            ),
        ),
        Phase::ProbeFailed => Err(Failed::new(exit::PROBE_FAILED, "probe failed".to_string())),
        Phase::Stopped => Err(
            Failed::new(exit::SUPERSEDED, "stopped by another agproc invocation".to_string()),
        ),
        Phase::Stale => Err(
            Failed::new(
                exit::RUN_FAILED,
                "the runner disappeared before recording an outcome".to_string(),
            ),
        ),
        other => {
            let mut out = "unexpected phase \"".to_string();
            out.append(other.as_str());
            out.append("\"");
            Err(Failed::new(exit::GENERIC, out))
        },
    }
}

// ------------------------------------------------------------------- machine
/// Where a start stands: what it waits for.
#[derive(Debug, Clone, Copy, PartialEq, Eq, Structural)]
pub enum StartStage {
    /// The orchestration lock.
    Locking,
    /// The record of the service.
    Deciding,
    /// The runner to be spawned, for this generation.
    Spawning { generation: u64 },
    /// The runner's first record.
    Publishing { generation: u64, runner_pid: u32 },
    /// A settled phase.
    Waiting { generation: u64, runner_pid: u32 },
    /// What was recorded before the runner went away.
    LastLook { generation: u64, runner_pid: u32 },
    /// Whether the runner that recorded this phase is still there, now that its
    /// output was forwarded.
    Settling { phase: Phase, runner_pid: u32, start_ticks: u64 },
    Done,
}

/// What a start saw.
pub enum StartEvent {
    Locked,
    /// Another start holds the lock; who, and the record of the service with the
    /// stat file of its runner.
    LockHeld { holder: Option<u32>, record: Option<State>, stat: Option<String> },
    /// The record; the stat file of its runner; whether its group has a process.
    Record { loaded: Loaded, stat: Option<String>, group_exists: bool },
    Spawned { pid: u32 },
    SpawnFailed(String),
    /// The record that is there now with the stat file of its runner; whether
    /// the spawned runner is alive; the milliseconds since it was spawned.
    Look { record: Option<State>, stat: Option<String>, runner_alive: bool, elapsed_ms: u64 },
    /// The stat file of the recorded runner, as it is now.
    RunnerStat { stat: Option<String> },
}

/// What a start does.
pub enum StartAction {
    Marker(String),
    Diagnostic(String),
    /// End a group that was left behind, with this grace period.
    Reap { pgid: i32, grace_seconds: u64 },
    /// Stop the service.
    StopService,
    /// Read the console stream from its beginning.
    SeekConsole,
    /// Forward what was added to the console stream.
    Pump,
    /// Print a partial line.
    Flush,
    /// Wait so many milliseconds.
    Sleep(u64),
    /// Question: take the orchestration lock.
    TryLock,
    /// Question: read the record.
    ReadRecord,
    /// Question: spawn the runner with these arguments.
    SpawnRunner { args: Vec<String> },
    /// Question: look at the record and at the runner.
    LookAgain,
    /// Question: look at the recorded runner alone.
    CheckRunner { pid: u32 },
    Finish(Result<Started, Failed>),
}

/// What a start does, as plain values.
pub enum StartActionView {
    Marker(Seq<char>),
    Diagnostic(Seq<char>),
    Reap { pgid: i32, grace_seconds: u64 },
    StopService,
    SeekConsole,
    Pump,
    Flush,
    Sleep(u64),
    TryLock,
    ReadRecord,
    SpawnRunner { args: Seq<Seq<char>> },
    LookAgain,
    CheckRunner { pid: u32 },
    Finish(Result<Started, (i32, Seq<char>)>),
}

impl View for StartAction {
    type V = StartActionView;

    open spec fn view(&self) -> StartActionView {
        match *self {
            StartAction::Marker(line) => StartActionView::Marker(line@),
            StartAction::Diagnostic(line) => StartActionView::Diagnostic(line@),
            StartAction::Reap { pgid, grace_seconds } => StartActionView::Reap {
                pgid,
                grace_seconds,
            },
            StartAction::StopService => StartActionView::StopService,
            StartAction::SeekConsole => StartActionView::SeekConsole,
            StartAction::Pump => StartActionView::Pump,
            StartAction::Flush => StartActionView::Flush,
            StartAction::Sleep(ms) => StartActionView::Sleep(ms),
            StartAction::TryLock => StartActionView::TryLock,
            StartAction::ReadRecord => StartActionView::ReadRecord,
            StartAction::SpawnRunner { args } => StartActionView::SpawnRunner {
                args: text::texts(args@),
            },
            StartAction::LookAgain => StartActionView::LookAgain,
            StartAction::CheckRunner { pid } => StartActionView::CheckRunner { pid },
            StartAction::Finish(result) => StartActionView::Finish(result_view(result)),
        }
    }
}

pub open spec fn actions_view(actions: Seq<StartAction>) -> Seq<StartActionView> {
    actions.map_values(|a: StartAction| a@)
}

/// One start of one service.
pub struct Starting {
    pub name: String,
    pub config_path: FsPath,
    /// The fingerprint of the configuration; empty when it is not known.
    pub config_hash: String,
    pub restart: bool,
    /// How long to wait, in seconds.
    pub timeout: Option<u64>,
    /// Grace period for a process group that was left behind.
    pub grace_seconds: u64,
    pub stage: StartStage,
}

/// What does not change during a start.
pub struct Subject {
    pub name: Seq<char>,
    pub config_path: Seq<u8>,
    pub config_hash: Seq<char>,
    pub restart: bool,
    pub timeout: Option<u64>,
    pub grace_seconds: u64,
}

/// What comes next, and what to do.
pub struct StartNext {
    pub stage: StartStage,
    pub actions: Seq<StartActionView>,
}

impl Starting {
    pub open spec fn subject(&self) -> Subject {
        Subject {
            name: self.name@,
            config_path: self.config_path@,
            config_hash: self.config_hash@,
            restart: self.restart,
            timeout: self.timeout,
            grace_seconds: self.grace_seconds,
        }
    }
}

/// The effective phase of a record.
pub open spec fn phase_of(record: State, stat: Option<Seq<char>>) -> Phase {
    state::effective(record.phase, state::live(record, stat))
}

/// Is a session of the service under way, which a start leaves alone?
pub open spec fn under_way(s: Subject, record: Option<State>, stat: Option<Seq<char>>) -> bool {
    !s.restart && record is Some && state::live(record->Some_0, stat) && state::in_flight(
        record->Some_0.phase,
    )
}

/// Do the numbers fit that a start derives from a record: the age of a service
/// that is up already, the generation after one that is not?
pub open spec fn countable(
    s: Subject,
    record: Option<State>,
    stat: Option<Seq<char>>,
    now: i64,
) -> bool {
    match record {
        Some(state) => if under_way(s, record, stat) {
            state.phase == Phase::Running ==> i64::MIN <= now - state.session_started_at
                <= i64::MAX
        } else {
            state.generation < u64::MAX
        },
        None => true,
    }
}

/// Is this what the stage waits for?
pub open spec fn expects(s: Subject, stage: StartStage, event: StartEvent, now: i64) -> bool {
    match stage {
        StartStage::Locking => event is Locked || event is LockHeld,
        StartStage::Deciding => event matches StartEvent::Record { loaded, stat, .. }
            && countable(s, loaded.state, text::opt_string(stat), now),
        StartStage::Spawning { .. } => event is Spawned || event is SpawnFailed,
        StartStage::Publishing { .. } => event is Look,
        StartStage::Waiting { .. } => event is Look,
        StartStage::LastLook { .. } => event is Look,
        StartStage::Settling { .. } => event is RunnerStat,
        StartStage::Done => false,
    }
}

/// The process to name: the child, or the runner before there is one.
pub open spec fn shown_pid(record: State) -> u32 {
    match record.child_pid {
        Some(pid) => pid,
        None => record.runner_pid,
    }
}

/// `START IN PROGRESS (pid <pid>, phase <phase>)`.
pub open spec fn in_progress(pid: u32, phase: Seq<char>) -> Seq<char> {
    "START IN PROGRESS (pid "@ + text::decimal(pid as nat) + ", phase "@ + phase + ")"@
}

/// A refusal.
pub open spec fn refused(line: Seq<char>, code: i32, reason: Seq<char>) -> Seq<StartActionView> {
    seq![
        StartActionView::Marker(line),
        StartActionView::Finish(Err::<Started, (i32, Seq<char>)>((code, reason))),
    ]
}

/// The words for the phase of a record that may not be there.
pub open spec fn known_phase(record: Option<State>, stat: Option<Seq<char>>) -> Seq<char> {
    match record {
        Some(state) => state::phase_words(phase_of(state, stat)),
        None => "unknown"@,
    }
}

/// The arguments of a runner.
pub open spec fn runner_args(s: Subject, generation: u64) -> Seq<Seq<char>> {
    seq![
        "__runner"@,
        "--config"@,
        paths::shown(s.config_path),
        "--service"@,
        s.name,
        "--generation"@,
        text::decimal(generation as nat),
    ]
}

/// The generation after a record: sessions of a service are counted.
pub open spec fn next_generation(record: Option<State>) -> u64 {
    match record {
        Some(state) => (state.generation + 1) as u64,
        None => 1,
    }
}

/// What precedes a fresh session: a leftover group of a killed runner is ended,
/// and a restarted service is stopped.
pub open spec fn preparation(
    s: Subject,
    record: Option<State>,
    stat: Option<Seq<char>>,
    group_exists: bool,
) -> Seq<StartActionView> {
    match record {
        None => Seq::empty(),
        Some(state) => if !state::live(state, stat) {
            if state.child_pgid is Some && group_exists {
                seq![
                    StartActionView::Marker(
                        "CLEANING UP LEFTOVER PROCESS GROUP (pgid "@ + text::signed_decimal(
                            state.child_pgid->Some_0 as int,
                        ) + ")"@,
                    ),
                    StartActionView::Reap {
                        pgid: state.child_pgid->Some_0,
                        grace_seconds: s.grace_seconds,
                    },
                ]
            } else {
                Seq::empty()
            }
        } else if s.restart && state::in_flight(state.phase) {
            seq![
                StartActionView::Marker(
                    "RESTARTING (stopping pid "@ + text::decimal(shown_pid(state) as nat) + ")"@,
                ),
                StartActionView::StopService,
            ]
        } else {
            Seq::empty()
        },
    }
}

/// The lines for a service that is up already.
pub open spec fn already_running(s: Subject, state: State, now: i64) -> Seq<StartActionView> {
    seq![
        StartActionView::Marker(
            "ALREADY RUNNING (pid "@ + text::decimal(shown_pid(state) as nat) + ", uptime "@
                + util::duration(now - state.session_started_at) + ", ready)"@,
        ),
    ] + (if s.config_hash.len() > 0 && state.config_hash@ != s.config_hash {
        seq![
            StartActionView::Marker(
                "WARNING: CONFIG CHANGED SINCE START (run `agproc restart "@ + s.name
                    + "` to apply it)"@,
            ),
        ]
    } else {
        Seq::empty()
    }) + seq![
        StartActionView::Finish(Ok::<Started, (i32, Seq<char>)>(Started::AlreadyRunning)),
    ]
}

/// What was reported about reading the record.
pub open spec fn reported(problem: Option<String>) -> Seq<StartActionView> {
    match problem {
        Some(line) => seq![StartActionView::Diagnostic(line@)],
        None => Seq::empty(),
    }
}

/// The record is known: start, or say why not.
pub open spec fn after_record(
    s: Subject,
    loaded: Loaded,
    stat: Option<Seq<char>>,
    group_exists: bool,
    now: i64,
) -> StartNext {
    let first = reported(loaded.problem);
    if under_way(s, loaded.state, stat) {
        let state = loaded.state->Some_0;
        StartNext {
            stage: StartStage::Done,
            actions: first + if state.phase == Phase::Running {
                already_running(s, state, now)
            } else {
                refused(
                    in_progress(state.runner_pid, state::phase_words(state.phase)),
                    exit::LOCKED,
                    "service is already "@ + state::phase_words(state.phase),
                )
            },
        }
    } else {
        let generation = next_generation(loaded.state);
        StartNext {
            stage: StartStage::Spawning { generation },
            actions: first + preparation(s, loaded.state, stat, group_exists) + seq![
                StartActionView::SpawnRunner { args: runner_args(s, generation) },
            ],
        }
    }
}

/// Did the runner publish its first record?
pub open spec fn published(record: Option<State>, generation: u64, runner_pid: u32) -> bool {
    record matches Some(state) && state.generation == generation && state.runner_pid == runner_pid
}

/// How long a runner is given for its first record.
pub const PUBLISH_WAIT_MS: u64 = 5000;

/// Does a record settle a generation?
pub open spec fn settled(
    record: Option<State>,
    stat: Option<Seq<char>>,
    generation: u64,
) -> bool {
    match record {
        Some(state) => state.generation == generation && state::is_settled(phase_of(state, stat)),
        None => false,
    }
}

/// The stage that follows a record that settles a generation.
pub open spec fn settling(state: State) -> StartStage {
    StartStage::Settling {
        phase: state.phase,
        runner_pid: state.runner_pid,
        start_ticks: state.runner_start_ticks,
    }
}

/// Let the last writes land and forward them, so that the outcome is never
/// printed before the output that explains it.
pub open spec fn drained() -> Seq<StartActionView> {
    seq![
        StartActionView::Sleep(20),
        StartActionView::Pump,
        StartActionView::Sleep(20),
        StartActionView::Pump,
        StartActionView::Sleep(20),
        StartActionView::Pump,
        StartActionView::Sleep(20),
        StartActionView::Pump,
        StartActionView::Flush,
    ]
}

/// The wait of a start goes on, or ends.
pub open spec fn after_look(
    s: Subject,
    stage: StartStage,
    record: Option<State>,
    stat: Option<Seq<char>>,
    runner_alive: bool,
    elapsed_ms: u64,
) -> StartNext {
    match stage {
        StartStage::Publishing { generation, runner_pid } => if published(
            record,
            generation,
            runner_pid,
        ) || !runner_alive || elapsed_ms >= PUBLISH_WAIT_MS {
            StartNext {
                stage: StartStage::Waiting { generation, runner_pid },
                actions: seq![
                    StartActionView::SeekConsole,
                    StartActionView::Pump,
                    StartActionView::LookAgain,
                ],
            }
        } else {
            StartNext {
                stage,
                actions: seq![StartActionView::Sleep(20), StartActionView::LookAgain],
            }
        },
        StartStage::Waiting { generation, runner_pid } => {
            if settled(record, stat, generation) {
                StartNext {
                    stage: settling(record->Some_0),
                    actions: drained().push(
                        StartActionView::CheckRunner { pid: record->Some_0.runner_pid },
                    ),
                }
            } else if !runner_alive {
                StartNext {
                    stage: StartStage::LastLook { generation, runner_pid },
                    actions: drained().push(StartActionView::LookAgain),
                }
            } else if s.timeout is Some && elapsed_ms > 1000 * s.timeout->Some_0 {
                StartNext {
                    stage: StartStage::Done,
                    actions: seq![
                        StartActionView::Marker(
                            "STILL STARTING (runner pid "@ + text::decimal(runner_pid as nat)
                                + ", phase "@ + known_phase(record, stat) + ")"@,
                        ),
                        StartActionView::Flush,
                        StartActionView::Finish(
                            Err::<Started, (i32, Seq<char>)>(
                                (
                                    exit::GENERIC,
                                    "timed out waiting for the probe (the runner keeps working; use `agproc ps`)"@,
                                ),
                            ),
                        ),
                    ],
                }
            } else {
                StartNext {
                    stage,
                    actions: seq![
                        StartActionView::Sleep(25),
                        StartActionView::Pump,
                        StartActionView::LookAgain,
                    ],
                }
            }
        },
        StartStage::LastLook { generation, runner_pid } => if settled(record, stat, generation) {
            StartNext {
                stage: settling(record->Some_0),
                actions: seq![StartActionView::CheckRunner { pid: record->Some_0.runner_pid }],
            }
        } else {
            StartNext {
                stage: StartStage::Done,
                actions: refused(
                    "RUNNER FAILED TO START (pid "@ + text::decimal(runner_pid as nat) + ")"@,
                    exit::GENERIC,
                    "runner exited before reaching a settled phase (see the service logs)"@,
                ),
            }
        },
        _ => StartNext { stage, actions: Seq::empty() },
    }
}

/// The outcome is told: the recorded phase, as the runner's last sign of life
/// leaves it.
pub open spec fn after_runner_stat(stage: StartStage, stat: Option<Seq<char>>) -> StartNext {
    match stage {
        StartStage::Settling { phase, runner_pid, start_ticks } => StartNext {
            stage: StartStage::Done,
            actions: seq![
                StartActionView::Finish(
                    settlement(
                        state::effective(
                            phase,
                            state::same_process(runner_pid, start_ticks, stat),
                        ),
                    ),
                ),
            ],
        },
        _ => StartNext { stage, actions: Seq::empty() },
    }
}

/// What a start does about an event that it waits for.
pub open spec fn next(s: Subject, stage: StartStage, event: StartEvent, now: i64) -> StartNext {
    match event {
        StartEvent::Locked => StartNext {
            stage: StartStage::Deciding,
            actions: seq![StartActionView::ReadRecord],
        },
        StartEvent::LockHeld { holder, record, stat } => StartNext {
            stage: StartStage::Done,
            actions: refused(
                in_progress(
                    match holder {
                        Some(pid) => pid,
                        None => 0,
                    },
                    known_phase(record, text::opt_string(stat)),
                ),
                exit::LOCKED,
                "another start/restart is in progress"@,
            ),
        },
        StartEvent::Record { loaded, stat, group_exists } => after_record(
            s,
            loaded,
            text::opt_string(stat),
            group_exists,
            now,
        ),
        StartEvent::Spawned { pid } => StartNext {
            stage: StartStage::Publishing {
                generation: match stage {
                    StartStage::Spawning { generation } => generation,
                    _ => 0,
                },
                runner_pid: pid,
            },
            actions: seq![StartActionView::LookAgain],
        },
        StartEvent::SpawnFailed(reason) => StartNext {
            stage: StartStage::Done,
            actions: seq![
                StartActionView::Finish(
                    Err::<Started, (i32, Seq<char>)>((exit::GENERIC, reason@)),
                ),
            ],
        },
        StartEvent::Look { record, stat, runner_alive, elapsed_ms } => after_look(
            s,
            stage,
            record,
            text::opt_string(stat),
            runner_alive,
            elapsed_ms,
        ),
        StartEvent::RunnerStat { stat } => after_runner_stat(stage, text::opt_string(stat)),
    }
}

/// A start after a step, and what to do.
pub open spec fn answer(s: Starting, actions: Seq<StartAction>) -> StartNext {
    StartNext { stage: s.stage, actions: actions_view(actions) }
}

fn refuse(line: String, code: i32, reason: String) -> (out: Vec<StartAction>)
    ensures
        actions_view(out@) == refused(line@, code, reason@),
{
    let ghost shown = line@;
    let ghost why = reason@;
    let out = vec![
        StartAction::Marker(line),
        StartAction::Finish(Err(Failed::new(code, reason))),
    ];
    assert(actions_view(out@) =~= refused(shown, code, why));
    out
}

fn progress_line(pid: u32, phase: &str) -> (out: String)
    ensures
        out@ == in_progress(pid, phase@),
{
    let mut out = "START IN PROGRESS (pid ".to_string();
    text::push_u64(&mut out, pid as u64);
    out.append(", phase ");
    out.append(phase);
    out.append(")");
    out
}

fn phase_or_unknown(record: &Option<State>, stat: &Option<String>) -> (out: String)
    ensures
        out@ == known_phase(*record, text::opt_string(*stat)),
{
    match record {
        Some(state) => state.effective_phase(text::borrowed(stat)).display().to_string(),
        None => "unknown".to_string(),
    }
}

fn push_drain(out: &mut Vec<StartAction>)
    ensures
        actions_view(final(out)@) == actions_view(old(out)@) + drained(),
{
    let ghost before = actions_view(out@);
    let mut i: usize = 0;
    while i < 4
        invariant
            i <= 4,
            actions_view(out@) == before + drained().take(2 * i),
        decreases 4 - i,
    {
        let ghost held = actions_view(out@);
        let ghost at = 2 * i as int;
        out.push(StartAction::Sleep(20));
        out.push(StartAction::Pump);
        proof {
            assert(actions_view(out@) =~= held.push(StartActionView::Sleep(20)).push(
                StartActionView::Pump,
            ));
            assert(drained().take(at + 2) =~= drained().take(at).push(drained()[at]).push(
                drained()[at + 1],
            ));
            assert(before + drained().take(at + 2) =~= held.push(drained()[at]).push(
                drained()[at + 1],
            ));
        }
        i = i + 1;
    }
    let ghost held = actions_view(out@);
    out.push(StartAction::Flush);
    assert(actions_view(out@) =~= held.push(StartActionView::Flush));
    assert(drained() =~= drained().take(8).push(StartActionView::Flush));
    assert(actions_view(out@) =~= before + drained());
}

/// The stage that follows, where the record settles the generation.
fn settled_stage(record: &Option<State>, stat: &Option<String>, generation: u64) -> (r: Option<
    (StartStage, u32),
>)
    ensures
        r is Some <==> settled(*record, text::opt_string(*stat), generation),
        r is Some ==> r->Some_0 == (settling(record->Some_0), record->Some_0.runner_pid),
{
    match record {
        Some(state) => {
            let phase = state.effective_phase(text::borrowed(stat));
            if state.generation == generation && phase.settled() {
                Some(
                    (
                        StartStage::Settling {
                            phase: state.phase,
                            runner_pid: state.runner_pid,
                            start_ticks: state.runner_start_ticks,
                        },
                        state.runner_pid,
                    ),
                )
            } else {
                None
            }
        },
        None => None,
    }
}

impl Starting {
    /// A start of a service. `stop_timeout_seconds` is the project's grace
    /// period.
    pub fn new(
        name: &str,
        config_path: &FsPath,
        config_hash: &str,
        restart: bool,
        timeout: Option<u64>,
        stop_timeout_seconds: u64,
    ) -> (r: (Starting, Vec<StartAction>))
        ensures
            r.0.subject() == (Subject {
                name: name@,
                config_path: config_path@,
                config_hash: config_hash@,
                restart,
                timeout,
                grace_seconds: supervise::at_least_one(stop_timeout_seconds as int) as u64,
            }),
            r.0.stage == StartStage::Locking,
            actions_view(r.1@) == seq![StartActionView::TryLock],
    {
        let actions = vec![StartAction::TryLock];
        assert(actions_view(actions@) =~= seq![StartActionView::TryLock]);
        (
            Starting {
                name: name.to_string(),
                config_path: config_path.copy(),
                config_hash: config_hash.to_string(),
                restart,
                timeout,
                grace_seconds: if stop_timeout_seconds < 1 {
                    1
                } else {
                    stop_timeout_seconds
                },
                stage: StartStage::Locking,
            },
            actions,
        )
    }

    fn spawn_action(&self, generation: u64) -> (r: StartAction)
        ensures
            r@ == (StartActionView::SpawnRunner {
                args: runner_args(self.subject(), generation),
            }),
    {
        let args = vec![
            "__runner".to_string(),
            "--config".to_string(),
            self.config_path.display(),
            "--service".to_string(),
            self.name.clone(),
            "--generation".to_string(),
            text::u64_text(generation),
        ];
        assert(text::texts(args@) =~= runner_args(self.subject(), generation));
        StartAction::SpawnRunner { args }
    }

    fn push_already_running(&self, out: &mut Vec<StartAction>, state: &State, now: i64)
        requires
            i64::MIN <= now - state.session_started_at <= i64::MAX,
        ensures
            actions_view(final(out)@) == actions_view(old(out)@) + already_running(
                self.subject(),
                *state,
                now,
            ),
    {
        let ghost before = actions_view(out@);
        let pid = match state.child_pid {
            Some(pid) => pid,
            None => state.runner_pid,
        };
        let mut line = "ALREADY RUNNING (pid ".to_string();
        text::push_u64(&mut line, pid as u64);
        line.append(", uptime ");
        line.append(util::format_duration_ms(state.uptime_ms(now)).as_str());
        line.append(", ready)");
        out.push(StartAction::Marker(line));
        if text::chars_of(self.config_hash.as_str()).len() > 0 && !text::same(
            state.config_hash.as_str(),
            self.config_hash.as_str(),
        ) {
            let mut warning =
                "WARNING: CONFIG CHANGED SINCE START (run `agproc restart ".to_string();
            warning.append(self.name.as_str());
            warning.append("` to apply it)");
            out.push(StartAction::Marker(warning));
        }
        out.push(StartAction::Finish(Ok(Started::AlreadyRunning)));
        assert(actions_view(out@) =~= before + already_running(self.subject(), *state, now));
    }

    fn push_preparation(
        &self,
        out: &mut Vec<StartAction>,
        record: &Option<State>,
        stat: &Option<String>,
        group_exists: bool,
    )
        ensures
            actions_view(final(out)@) == actions_view(old(out)@) + preparation(
                self.subject(),
                *record,
                text::opt_string(*stat),
                group_exists,
            ),
    {
        let ghost before = actions_view(out@);
        if let Some(state) = record {
            if !state.runner_live(text::borrowed(stat)) {
                if let Some(pgid) = state.child_pgid {
                    if group_exists {
                        let mut line = "CLEANING UP LEFTOVER PROCESS GROUP (pgid ".to_string();
                        text::push_i64(&mut line, pgid as i64);
                        line.append(")");
                        out.push(StartAction::Marker(line));
                        out.push(StartAction::Reap { pgid, grace_seconds: self.grace_seconds });
                    }
                }
            } else if self.restart {
                let under_way = match state.phase {
                    Phase::Building | Phase::Starting | Phase::Running => true,
                    _ => false,
                };
                if under_way {
                    let pid = match state.child_pid {
                        Some(pid) => pid,
                        None => state.runner_pid,
                    };
                    let mut line = "RESTARTING (stopping pid ".to_string();
                    text::push_u64(&mut line, pid as u64);
                    line.append(")");
                    out.push(StartAction::Marker(line));
                    out.push(StartAction::StopService);
                }
            }
        }
        assert(actions_view(out@) =~= before + preparation(
            self.subject(),
            *record,
            text::opt_string(*stat),
            group_exists,
        ));
    }

    fn on_record(
        &mut self,
        loaded: Loaded,
        stat: Option<String>,
        group_exists: bool,
        now: i64,
    ) -> (r: Vec<StartAction>)
        requires
            countable(old(self).subject(), loaded.state, text::opt_string(stat), now),
        ensures
            final(self).subject() == old(self).subject(),
            answer(*final(self), r@) == after_record(
                old(self).subject(),
                loaded,
                text::opt_string(stat),
                group_exists,
                now,
            ),
    {
        let mut out: Vec<StartAction> = Vec::new();
        let ghost first = reported(loaded.problem);
        if let Some(problem) = loaded.problem {
            out.push(StartAction::Diagnostic(problem));
        }
        assert(actions_view(out@) =~= first);
        let record = loaded.state;
        if !self.restart {
            if let Some(state) = &record {
                if state.runner_live(text::borrowed(&stat)) {
                    match state.phase {
                        Phase::Running => {
                            self.push_already_running(&mut out, state, now);
                            self.stage = StartStage::Done;
                            return out;
                        },
                        Phase::Building | Phase::Starting => {
                            let words = state.phase.display();
                            let mut reason = "service is already ".to_string();
                            reason.append(words);
                            let ghost why = reason@;
                            let line = progress_line(state.runner_pid, words);
                            let ghost shown = line@;
                            out.push(StartAction::Marker(line));
                            out.push(
                                StartAction::Finish(Err(Failed::new(exit::LOCKED, reason))),
                            );
                            assert(actions_view(out@) =~= first + refused(
                                shown,
                                exit::LOCKED,
                                why,
                            ));
                            self.stage = StartStage::Done;
                            return out;
                        },
                        _ => {},
                    }
                }
            }
        }
        let generation = match &record {
            Some(state) => state.generation + 1,
            None => 1,
        };
        self.push_preparation(&mut out, &record, &stat, group_exists);
        let spawn = self.spawn_action(generation);
        let ghost asked = spawn@;
        let ghost prepared = actions_view(out@);
        out.push(spawn);
        self.stage = StartStage::Spawning { generation };
        assert(actions_view(out@) =~= prepared + seq![asked]);
        out
    }

    fn on_look(
        &mut self,
        record: Option<State>,
        stat: Option<String>,
        runner_alive: bool,
        elapsed_ms: u64,
    ) -> (r: Vec<StartAction>)
        ensures
            final(self).subject() == old(self).subject(),
            answer(*final(self), r@) == after_look(
                old(self).subject(),
                old(self).stage,
                record,
                text::opt_string(stat),
                runner_alive,
                elapsed_ms,
            ),
    {
        let ghost expected = after_look(
            self.subject(),
            self.stage,
            record,
            text::opt_string(stat),
            runner_alive,
            elapsed_ms,
        );
        let mut out: Vec<StartAction> = Vec::new();
        match self.stage {
            StartStage::Publishing { generation, runner_pid } => {
                let there = match &record {
                    Some(state) => state.generation == generation && state.runner_pid
                        == runner_pid,
                    None => false,
                };
                if there || !runner_alive || elapsed_ms >= PUBLISH_WAIT_MS {
                    // Even when the runner never published (it failed to start),
                    // its stderr went to the console stream: read it so the
                    // failure is visible.
                    self.stage = StartStage::Waiting { generation, runner_pid };
                    out.push(StartAction::SeekConsole);
                    out.push(StartAction::Pump);
                } else {
                    out.push(StartAction::Sleep(20));
                }
                out.push(StartAction::LookAgain);
            },
            StartStage::Waiting { generation, runner_pid } => {
                match settled_stage(&record, &stat, generation) {
                    Some((stage, pid)) => {
                        push_drain(&mut out);
                        out.push(StartAction::CheckRunner { pid });
                        self.stage = stage;
                    },
                    None => if !runner_alive {
                        push_drain(&mut out);
                        out.push(StartAction::LookAgain);
                        self.stage = StartStage::LastLook { generation, runner_pid };
                    } else if self.over_time(elapsed_ms) {
                        let mut line = "STILL STARTING (runner pid ".to_string();
                        text::push_u64(&mut line, runner_pid as u64);
                        line.append(", phase ");
                        line.append(phase_or_unknown(&record, &stat).as_str());
                        line.append(")");
                        out.push(StartAction::Marker(line));
                        out.push(StartAction::Flush);
                        out.push(
                            StartAction::Finish(
                                Err(
                                    Failed::new(
                                        exit::GENERIC,
                                        "timed out waiting for the probe (the runner keeps working; use `agproc ps`)".to_string(),
                                    ),
                                ),
                            ),
                        );
                        self.stage = StartStage::Done;
                    } else {
                        out.push(StartAction::Sleep(25));
                        out.push(StartAction::Pump);
                        out.push(StartAction::LookAgain);
                    },
                }
            },
            StartStage::LastLook { generation, runner_pid } => {
                match settled_stage(&record, &stat, generation) {
                    Some((stage, pid)) => {
                        out.push(StartAction::CheckRunner { pid });
                        self.stage = stage;
                    },
                    None => {
                        self.stage = StartStage::Done;
                        let mut line = "RUNNER FAILED TO START (pid ".to_string();
                        text::push_u64(&mut line, runner_pid as u64);
                        line.append(")");
                        return refuse(
                            line,
                            exit::GENERIC,
                            "runner exited before reaching a settled phase (see the service logs)".to_string(),
                        );
                    },
                }
            },
            _ => {},
        }
        assert(actions_view(out@) =~= expected.actions);
        out
    }

    fn on_runner_stat(&mut self, stat: Option<String>) -> (r: Vec<StartAction>)
        ensures
            final(self).subject() == old(self).subject(),
            answer(*final(self), r@) == after_runner_stat(
                old(self).stage,
                text::opt_string(stat),
            ),
    {
        let ghost expected = after_runner_stat(self.stage, text::opt_string(stat));
        let mut out: Vec<StartAction> = Vec::new();
        if let StartStage::Settling { phase, runner_pid, start_ticks } = self.stage {
            let live = state::is_same_process(runner_pid, start_ticks, text::borrowed(&stat));
            out.push(StartAction::Finish(settle(phase.effective(live))));
            self.stage = StartStage::Done;
        }
        assert(actions_view(out@) =~= expected.actions);
        out
    }

    fn over_time(&self, elapsed_ms: u64) -> (r: bool)
        ensures
            r == (self.timeout matches Some(limit) && elapsed_ms > 1000 * limit),
    {
        match self.timeout {
            Some(limit) => elapsed_ms as u128 > 1000 * (limit as u128),
            None => false,
        }
    }

    /// Take in what was seen and say what to do. `now` is the time of day in
    /// milliseconds.
    pub fn step(&mut self, event: StartEvent, now: i64) -> (r: Vec<StartAction>)
        requires
            expects(old(self).subject(), old(self).stage, event, now),
        ensures
            final(self).subject() == old(self).subject(),
            answer(*final(self), r@) == next(old(self).subject(), old(self).stage, event, now),
    {
        match event {
            StartEvent::Locked => {
                self.stage = StartStage::Deciding;
                let out = vec![StartAction::ReadRecord];
                assert(actions_view(out@) =~= seq![StartActionView::ReadRecord]);
                out
            },
            StartEvent::LockHeld { holder, record, stat } => {
                let pid = match holder {
                    Some(pid) => pid,
                    None => 0,
                };
                self.stage = StartStage::Done;
                let line = progress_line(pid, phase_or_unknown(&record, &stat).as_str());
                refuse(line, exit::LOCKED, "another start/restart is in progress".to_string())
            },
            StartEvent::Record { loaded, stat, group_exists } => self.on_record(
                loaded,
                stat,
                group_exists,
                now,
            ),
            StartEvent::Spawned { pid } => {
                let generation = match self.stage {
                    StartStage::Spawning { generation } => generation,
                    _ => 0,
                };
                self.stage = StartStage::Publishing { generation, runner_pid: pid };
                let out = vec![StartAction::LookAgain];
                assert(actions_view(out@) =~= seq![StartActionView::LookAgain]);
                out
            },
            StartEvent::SpawnFailed(reason) => {
                self.stage = StartStage::Done;
                let ghost why = reason@;
                let out = vec![StartAction::Finish(Err(Failed::new(exit::GENERIC, reason)))];
                assert(actions_view(out@) =~= seq![
                    StartActionView::Finish(
                        Err::<Started, (i32, Seq<char>)>((exit::GENERIC, why)),
                    ),
                ]);
                out
            },
            StartEvent::Look { record, stat, runner_alive, elapsed_ms } => self.on_look(
                record,
                stat,
                runner_alive,
                elapsed_ms,
            ),
            StartEvent::RunnerStat { stat } => self.on_runner_stat(stat),
        }
    }
}

// ------------------------------------------------------------------- summary
/// The lines for the failures of an invocation.
pub open spec fn failure_lines(results: Seq<(String, Result<Started, Failed>)>) -> Seq<Seq<char>>
    decreases results.len(),
{
    if results.len() == 0 {
        Seq::empty()
    } else {
        let before = failure_lines(results.drop_last());
        match results.last().1 {
            Ok(_) => before,
            Err(failed) => before.push(
                "START FAILED: "@ + results.last().0@ + " ("@ + failed.reason@ + ")"@,
            ),
        }
    }
}

/// The exit code of an invocation: that of the first failure.
pub open spec fn first_code(results: Seq<(String, Result<Started, Failed>)>) -> i32
    decreases results.len(),
{
    if results.len() == 0 {
        exit::OK
    } else {
        match results[0].1 {
            Ok(_) => first_code(results.skip(1)),
            Err(failed) => failed.code,
        }
    }
}

/// What starting several services comes to: a line for each failure, and the
/// exit code.
pub fn summary(results: &Vec<(String, Result<Started, Failed>)>) -> (r: (Vec<String>, i32))
    ensures
        text::texts(r.0@) == failure_lines(results@),
        r.1 == first_code(results@),
{
    let mut out: Vec<String> = Vec::new();
    let mut first: Option<i32> = None;
    let ghost all = results@;
    assert(text::texts(out@) =~= failure_lines(all.take(0)));
    assert(all.skip(0) =~= all);
    for i in 0..results.len()
        invariant
            all == results@,
            text::texts(out@) == failure_lines(all.take(i as int)),
            match first {
                Some(code) => first_code(all) == code,
                None => first_code(all) == first_code(all.skip(i as int)),
            },
    {
        let ghost before = out@;
        proof {
            assert(all.take(i + 1).drop_last() =~= all.take(i as int));
            assert(all.skip(i as int).skip(1) =~= all.skip(i + 1));
        }
        match &results[i].1 {
            Ok(_) => {},
            Err(failed) => {
                let mut line = "START FAILED: ".to_string();
                line.append(results[i].0.as_str());
                line.append(" (");
                line.append(failed.reason.as_str());
                line.append(")");
                let ghost shown = line@;
                out.push(line);
                assert(text::texts(out@) =~= text::texts(before).push(shown));
                if first.is_none() {
                    first = Some(failed.code);
                }
            },
        }
    }
    assert(all.take(all.len() as int) =~= all);
    let code = match first {
        Some(code) => code,
        None => exit::OK,
    };
    (out, code)
}

// ---------------------------------------------------------------------- laws
/// Starting a service that runs already is harmless: it succeeds, and nothing
/// is spawned, stopped or reaped.
pub proof fn law_starting_a_running_service_changes_nothing(
    s: Subject,
    loaded: Loaded,
    stat: Option<Seq<char>>,
    group_exists: bool,
    now: i64,
)
    requires
        !s.restart,
        loaded.state matches Some(record) && state::live(record, stat) && record.phase
            == Phase::Running,
    ensures
        ({
            let n = after_record(s, loaded, stat, group_exists, now);
            &&& n.stage == StartStage::Done
            &&& n.actions[n.actions.len() - 1] == StartActionView::Finish(
                Ok::<Started, (i32, Seq<char>)>(Started::AlreadyRunning),
            )
            &&& forall|i: int|
                0 <= i < n.actions.len() ==> !(#[trigger] n.actions[i] is SpawnRunner)
                    && !(n.actions[i] is StopService) && !(n.actions[i] is Reap)
        }),
{
}

/// While a session of the service is being built or probed, another start is
/// refused and spawns nothing.
pub proof fn law_a_start_under_way_refuses_another(
    s: Subject,
    loaded: Loaded,
    stat: Option<Seq<char>>,
    group_exists: bool,
    now: i64,
)
    requires
        !s.restart,
        loaded.state matches Some(record) && state::live(record, stat) && (record.phase
            == Phase::Building || record.phase == Phase::Starting),
    ensures
        ({
            let n = after_record(s, loaded, stat, group_exists, now);
            &&& n.stage == StartStage::Done
            &&& n.actions[n.actions.len() - 1] matches StartActionView::Finish(Err(failed))
                && failed.0 == exit::LOCKED
            &&& forall|i: int|
                0 <= i < n.actions.len() ==> !(#[trigger] n.actions[i] is SpawnRunner)
                    && !(n.actions[i] is StopService)
        }),
{
}

/// While another start holds the lock, a start is refused and does nothing else.
pub proof fn law_the_lock_admits_one_start(
    s: Subject,
    holder: Option<u32>,
    record: Option<State>,
    stat: Option<String>,
    now: i64,
)
    ensures
        ({
            let n = next(
                s,
                StartStage::Locking,
                StartEvent::LockHeld { holder, record, stat },
                now,
            );
            &&& n.stage == StartStage::Done
            &&& n.actions.len() == 2
            &&& n.actions[0] is Marker
            &&& n.actions[1] matches StartActionView::Finish(Err(failed)) && failed.0
                == exit::LOCKED
        }),
{
}

/// Waiting for a session never ends it, however the wait itself ends: a caller
/// that gives up leaves the runner working.
pub proof fn law_waiting_leaves_the_runner_working(
    s: Subject,
    stage: StartStage,
    event: StartEvent,
    now: i64,
    i: int,
)
    requires
        event is Look || event is RunnerStat,
        0 <= i < next(s, stage, event, now).actions.len(),
    ensures
        ({
            let action = next(s, stage, event, now).actions[i];
            !(action is StopService) && !(action is Reap) && !(action is SpawnRunner)
        }),
{
}

/// A start reports a service ready only after a last look at the runner, taken
/// when all its output was forwarded: a runner that is gone by then left a stale
/// session, whatever the looks before it saw.
pub proof fn law_ready_is_told_of_a_live_runner(
    s: Subject,
    stage: StartStage,
    event: StartEvent,
    now: i64,
)
    requires
        expects(s, stage, event, now),
        next(s, stage, event, now).actions.contains(
            StartActionView::Finish(Ok::<Started, (i32, Seq<char>)>(Started::Ready)),
        ),
    ensures
        stage matches StartStage::Settling { phase, runner_pid, start_ticks } && event matches
            StartEvent::RunnerStat { stat } && phase == Phase::Running && state::same_process(
            runner_pid,
            start_ticks,
            text::opt_string(stat),
        ),
{
    let n = next(s, stage, event, now);
    let ready = StartActionView::Finish(Ok::<Started, (i32, Seq<char>)>(Started::Ready));
    let i = n.actions.index_of(ready);
    assert(n.actions[i] == ready);
}

/// A record that settles a start is followed by a last look at its runner: the
/// outcome told is that of the recorded phase, with the runner as it is then.
pub proof fn law_the_last_look_decides(
    s: Subject,
    stage: StartStage,
    record: State,
    stat: Option<Seq<char>>,
    runner_alive: bool,
    elapsed_ms: u64,
    later: Option<Seq<char>>,
)
    requires
        (stage matches StartStage::Waiting { generation, .. } && settled(
            Some(record),
            stat,
            generation,
        )) || (stage matches StartStage::LastLook { generation, .. } && settled(
            Some(record),
            stat,
            generation,
        )),
    ensures
        ({
            let n = after_look(s, stage, Some(record), stat, runner_alive, elapsed_ms);
            let last = n.actions.len() - 1;
            &&& n.actions[last] == (StartActionView::CheckRunner { pid: record.runner_pid })
            &&& forall|i: int| 0 <= i < last ==> !(#[trigger] n.actions[i] is Finish)
            &&& stage is Waiting ==> n.actions.drop_last() == drained()
            &&& after_runner_stat(n.stage, later) == (StartNext {
                stage: StartStage::Done,
                actions: seq![StartActionView::Finish(settlement(phase_of(record, later)))],
            })
        }),
{
    let n = after_look(s, stage, Some(record), stat, runner_alive, elapsed_ms);
    if stage is Waiting {
        assert(n.actions.drop_last() =~= drained());
    }
}

/// A restart always spawns a runner, and stops a session that is under way
/// before it does.
pub proof fn law_restart_stops_before_it_spawns(
    s: Subject,
    loaded: Loaded,
    stat: Option<Seq<char>>,
    group_exists: bool,
    now: i64,
)
    requires
        s.restart,
    ensures
        ({
            let n = after_record(s, loaded, stat, group_exists, now);
            let last = n.actions.len() - 1;
            &&& n.stage is Spawning
            &&& n.actions[last] is SpawnRunner
            &&& loaded.state is Some && state::live(loaded.state->Some_0, stat)
                && state::in_flight(loaded.state->Some_0.phase) ==> n.actions[last - 1]
                == StartActionView::StopService
        }),
{
}

/// Each session that is spawned has a greater generation than the recorded one.
pub proof fn law_generations_increase(
    s: Subject,
    loaded: Loaded,
    stat: Option<Seq<char>>,
    group_exists: bool,
    now: i64,
)
    requires
        countable(s, loaded.state, stat, now),
    ensures
        after_record(s, loaded, stat, group_exists, now).stage matches StartStage::Spawning {
            generation,
        } ==> generation > 0 && (loaded.state matches Some(record) ==> generation
            > record.generation),
{
}

/// A start waits for the outcome of its own session: a record of another
/// generation settles nothing.
pub proof fn law_only_the_own_generation_settles(
    record: Option<State>,
    stat: Option<Seq<char>>,
    generation: u64,
)
    ensures
        settled(record, stat, generation) <==> (record matches Some(state) && state.generation
            == generation && state::is_settled(phase_of(state, stat))),
{
}

/// What a settled phase means for a start carries the exit code of the phase.
pub proof fn law_settlement_matches_the_phase_code(phase: Phase)
    ensures
        match settlement(phase) {
            Ok(started) => started == Started::Ready && state::phase_code(phase) == exit::OK,
            Err(failed) => failed.0 == state::phase_code(phase) && failed.0 != exit::OK,
        },
{
}

/// An invocation succeeds exactly when no service failed, provided that failures
/// carry failure codes.
pub proof fn law_success_means_no_failure(results: Seq<(String, Result<Started, Failed>)>)
    requires
        forall|i: int|
            0 <= i < results.len() ==> ((#[trigger] results[i]).1 matches Err(failed) ==> failed.code
                != exit::OK),
    ensures
        first_code(results) == exit::OK <==> forall|i: int|
            0 <= i < results.len() ==> (#[trigger] results[i]).1 is Ok,
    decreases results.len(),
{
    if results.len() > 0 {
        let rest = results.skip(1);
        assert forall|i: int| 0 <= i < rest.len() implies ((#[trigger] rest[i]).1 matches Err(
            failed,
        ) ==> failed.code != exit::OK) by {
            assert(results[i + 1] == rest[i]);
        }
        law_success_means_no_failure(rest);
        assert(results[0].1 matches Err(failed) ==> failed.code != exit::OK);
        if first_code(results) == exit::OK {
            assert forall|i: int| 0 <= i < results.len() implies (#[trigger] results[i]).1 is Ok by {
                if i > 0 {
                    assert(rest[i - 1] == results[i]);
                }
            }
        }
        if forall|i: int| 0 <= i < results.len() ==> (#[trigger] results[i]).1 is Ok {
            assert forall|i: int| 0 <= i < rest.len() implies (#[trigger] rest[i]).1 is Ok by {
                assert(results[i + 1] == rest[i]);
            }
            assert(results[0].1 is Ok);
        }
    }
}

} // verus!

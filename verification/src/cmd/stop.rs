//! `agproc stop` — stop the build or run process of a service.
//!
//! `stop` never takes the orchestration lock: it has to work while a `start`
//! is still in flight. It drops a marker so the runner can distinguish a
//! requested stop from a crash, signals the service's process group and the
//! runner, escalates to SIGKILL when needed, and finally records the outcome
//! itself if the runner did not live long enough to do so.
//!
//! Stopping several services runs them in parallel, exactly like `start`: a
//! graceful drain of one service must not add to the shutdown time of the next.

use vstd::prelude::*;
use vstd::string::*;

use crate::config::{Service, Settings};
use crate::exit;
use crate::state;
use crate::state::{Loaded, Phase, State, StateView};
use crate::supervise;
use crate::supervise::GroupSignal;
use crate::text;

verus! {

#[derive(Debug, Clone, Copy, PartialEq, Eq, Structural)]
pub enum StopOutcome {
    Stopped,
    Forced,
    NotRunning,
    CleanedUp,
}

/// Where stopping a service stands: what it waits for.
#[derive(Debug, Clone, Copy, PartialEq, Eq, Structural)]
pub enum StopStage {
    /// The record of the service.
    Reading,
    /// Whether the runner is still there after it was asked to end.
    AskedRunner,
    /// Whether the runner is still there after it was killed.
    KilledRunner,
    /// Whether the service's process group is still there.
    AskedGroup { forced: bool },
    /// What was recorded in the end.
    Confirming { forced: bool },
    Done,
}

/// What stopping a service saw.
pub enum StopEvent {
    /// The record; the stat file of its runner; whether its group has a process.
    Record { loaded: Loaded, stat: Option<String>, group_exists: bool },
    /// Is the runner alive, so many milliseconds after it was last signalled?
    RunnerAlive { alive: bool, waited_ms: u64 },
    /// Has the group a process left?
    GroupExists(bool),
    /// The record that is there now, and the stat file of its runner.
    After { state: Option<State>, stat: Option<String> },
}

/// What stopping a service does.
pub enum StopAction {
    Diagnostic(String),
    Marker(String),
    /// Remove the marker of a requested stop.
    ClearStop,
    /// Drop the marker of a requested stop.
    MarkStop,
    SignalGroup { pgid: i32, signal: GroupSignal },
    SignalRunner { pid: u32, signal: GroupSignal },
    /// Wait so many milliseconds.
    Sleep(u64),
    /// End a group that was left behind, with this grace period.
    Reap { pgid: i32, grace_seconds: u64 },
    /// Write the record.
    WriteRecord,
    /// Question: read the record.
    ReadRecord,
    /// Question: is the runner alive?
    CheckRunner { pid: u32 },
    /// Question: has the group a process left?
    CheckGroup { pgid: i32 },
    /// Question: read the record again.
    ReadAgain,
    Finish(StopOutcome),
}

/// What stopping a service does, as plain values.
pub enum StopActionView {
    Diagnostic(Seq<char>),
    Marker(Seq<char>),
    ClearStop,
    MarkStop,
    SignalGroup { pgid: i32, signal: GroupSignal },
    SignalRunner { pid: u32, signal: GroupSignal },
    Sleep(u64),
    Reap { pgid: i32, grace_seconds: u64 },
    WriteRecord,
    ReadRecord,
    CheckRunner { pid: u32 },
    CheckGroup { pgid: i32 },
    ReadAgain,
    Finish(StopOutcome),
}

impl View for StopAction {
    type V = StopActionView;

    open spec fn view(&self) -> StopActionView {
        match *self {
            StopAction::Diagnostic(line) => StopActionView::Diagnostic(line@),
            StopAction::Marker(line) => StopActionView::Marker(line@),
            StopAction::ClearStop => StopActionView::ClearStop,
            StopAction::MarkStop => StopActionView::MarkStop,
            StopAction::SignalGroup { pgid, signal } => StopActionView::SignalGroup {
                pgid,
                signal,
            },
            StopAction::SignalRunner { pid, signal } => StopActionView::SignalRunner {
                pid,
                signal,
            },
            StopAction::Sleep(ms) => StopActionView::Sleep(ms),
            StopAction::Reap { pgid, grace_seconds } => StopActionView::Reap {
                pgid,
                grace_seconds,
            },
            StopAction::WriteRecord => StopActionView::WriteRecord,
            StopAction::ReadRecord => StopActionView::ReadRecord,
            StopAction::CheckRunner { pid } => StopActionView::CheckRunner { pid },
            StopAction::CheckGroup { pgid } => StopActionView::CheckGroup { pgid },
            StopAction::ReadAgain => StopActionView::ReadAgain,
            StopAction::Finish(outcome) => StopActionView::Finish(outcome),
        }
    }
}

pub open spec fn actions_view(actions: Seq<StopAction>) -> Seq<StopActionView> {
    actions.map_values(|a: StopAction| a@)
}

/// Stopping one service.
pub struct Stopping {
    pub grace_seconds: u64,
    /// The record that was found, once it was.
    pub record: Option<State>,
    pub stage: StopStage,
}

/// Stopping one service, as plain values.
pub struct StoppingView {
    pub grace_seconds: u64,
    pub record: Option<StateView>,
    pub stage: StopStage,
}

/// What comes next, and what to do.
pub struct StopNext {
    pub stopping: StoppingView,
    pub actions: Seq<StopActionView>,
}

pub open spec fn record_view(record: Option<State>) -> Option<StateView> {
    match record {
        Some(state) => Some(state@),
        None => None,
    }
}

impl Stopping {
    pub open spec fn model(&self) -> StoppingView {
        StoppingView {
            grace_seconds: self.grace_seconds,
            record: record_view(self.record),
            stage: self.stage,
        }
    }
}

/// Is this what the stage waits for?
pub open spec fn expects(s: Stopping, event: StopEvent) -> bool {
    match s.stage {
        StopStage::Reading => event is Record,
        StopStage::AskedRunner => event is RunnerAlive && s.record is Some,
        StopStage::KilledRunner => event is RunnerAlive && s.record is Some,
        StopStage::AskedGroup { .. } => event is GroupExists && s.record is Some && (
        s.record->Some_0).child_pgid is Some,
        StopStage::Confirming { .. } => event is After && s.record is Some,
        StopStage::Done => false,
    }
}

/// What was reported about reading the record.
pub open spec fn reported(problem: Option<String>) -> Seq<StopActionView> {
    match problem {
        Some(line) => seq![StopActionView::Diagnostic(line@)],
        None => Seq::empty(),
    }
}

/// The record is known.
pub open spec fn after_record(
    s: StoppingView,
    loaded: Loaded,
    stat: Option<Seq<char>>,
    group_exists: bool,
) -> StopNext {
    let first = reported(loaded.problem);
    match loaded.state {
        None => StopNext {
            stopping: StoppingView { stage: StopStage::Done, ..s },
            actions: first + seq![
                StopActionView::ClearStop,
                StopActionView::Marker("NOT RUNNING"@),
                StopActionView::Finish(StopOutcome::NotRunning),
            ],
        },
        Some(record) => {
            let phase = state::effective(record.phase, state::live(record, stat));
            let known = StoppingView { record: Some(record@), ..s };
            if state::in_flight(phase) {
                StopNext {
                    stopping: StoppingView { stage: StopStage::AskedRunner, ..known },
                    actions: first + seq![StopActionView::MarkStop] + (match record.child_pgid {
                        Some(pgid) => seq![
                            StopActionView::SignalGroup { pgid, signal: GroupSignal::Term },
                        ],
                        None => Seq::empty(),
                    }) + seq![
                        StopActionView::SignalRunner {
                            pid: record.runner_pid,
                            signal: GroupSignal::Term,
                        },
                        StopActionView::CheckRunner { pid: record.runner_pid },
                    ],
                }
            } else if record.child_pgid is Some && group_exists {
                StopNext {
                    stopping: StoppingView { stage: StopStage::Done, ..known },
                    actions: first + seq![
                        StopActionView::ClearStop,
                        StopActionView::Reap {
                            pgid: record.child_pgid->Some_0,
                            grace_seconds: s.grace_seconds,
                        },
                        StopActionView::Marker(
                            "STOPPED (killed leftover process group of the "@
                                + state::phase_words(phase) + ")"@,
                        ),
                        StopActionView::Finish(StopOutcome::CleanedUp),
                    ],
                }
            } else {
                StopNext {
                    stopping: StoppingView { stage: StopStage::Done, ..known },
                    actions: first + seq![
                        StopActionView::ClearStop,
                        StopActionView::Marker("NOT RUNNING"@),
                        StopActionView::Finish(StopOutcome::NotRunning),
                    ],
                }
            }
        },
    }
}

/// The question about the group, or about the record when there is no group.
pub open spec fn ask_group(record: StateView, forced: bool) -> (StopStage, StopActionView) {
    match record.child_pgid {
        Some(pgid) => (StopStage::AskedGroup { forced }, StopActionView::CheckGroup { pgid }),
        None => (StopStage::Confirming { forced }, StopActionView::ReadAgain),
    }
}

/// How long a killed runner is waited for, in milliseconds.
pub const KILL_WAIT_MS: u64 = 2000;

/// How long a runner is waited for at a stage, in milliseconds: after it was
/// asked to end it has the service's grace period and a little more to record
/// the outcome.
pub open spec fn patience(s: StoppingView) -> int {
    if s.stage == StopStage::KilledRunner {
        KILL_WAIT_MS as int
    } else {
        1000 * (s.grace_seconds + 2)
    }
}

/// The runner is gone, is waited for, or has to be killed.
pub open spec fn after_runner(
    s: StoppingView,
    record: StateView,
    alive: bool,
    waited_ms: u64,
) -> StopNext {
    if alive && waited_ms < patience(s) {
        StopNext {
            stopping: s,
            actions: seq![
                StopActionView::Sleep(50),
                StopActionView::CheckRunner { pid: record.runner_pid },
            ],
        }
    } else if alive && s.stage == StopStage::AskedRunner {
        StopNext {
            stopping: StoppingView { stage: StopStage::KilledRunner, ..s },
            actions: seq![
                StopActionView::SignalRunner { pid: record.runner_pid, signal: GroupSignal::Kill },
                StopActionView::CheckRunner { pid: record.runner_pid },
            ],
        }
    } else {
        let (stage, question) = ask_group(record, s.stage == StopStage::KilledRunner);
        StopNext { stopping: StoppingView { stage, ..s }, actions: seq![question] }
    }
}

/// The group is gone, or has to be killed.
pub open spec fn after_group(
    s: StoppingView,
    record: StateView,
    forced: bool,
    exists_now: bool,
) -> StopNext {
    StopNext {
        stopping: StoppingView {
            stage: StopStage::Confirming { forced: forced || exists_now },
            ..s
        },
        actions: (if exists_now {
            seq![
                StopActionView::SignalGroup {
                    pgid: record.child_pgid->Some_0,
                    signal: GroupSignal::Kill,
                },
            ]
        } else {
            Seq::empty()
        }) + seq![StopActionView::ReadAgain],
    }
}

/// Did the runner record an outcome of the session that was stopped?
pub open spec fn recorded(
    record: StateView,
    after: Option<State>,
    stat: Option<Seq<char>>,
) -> bool {
    match after {
        Some(now) => now.generation == record.generation && outcome_phase(
            state::effective(now.phase, state::live(now, stat)),
        ),
        None => false,
    }
}

/// The phases that stand as the outcome of a stop.
pub open spec fn outcome_phase(phase: Phase) -> bool {
    phase == Phase::Stopped || phase == Phase::Exited || phase == Phase::RunFailed || phase
        == Phase::BuildFailed
}

/// What is recorded is known; if the runner was killed before it could record
/// the outcome, that is done here.
pub open spec fn after_confirm(
    s: StoppingView,
    record: StateView,
    forced: bool,
    done: bool,
    now: i64,
) -> StopNext {
    let last = seq![
        StopActionView::ClearStop,
        StopActionView::Marker(
            if forced {
                "STOPPED (forced)"@
            } else {
                "STOPPED"@
            },
        ),
        StopActionView::Finish(
            if forced {
                StopOutcome::Forced
            } else {
                StopOutcome::Stopped
            },
        ),
    ];
    if done {
        StopNext { stopping: StoppingView { stage: StopStage::Done, ..s }, actions: last }
    } else {
        StopNext {
            stopping: StoppingView {
                stage: StopStage::Done,
                record: Some(
                    StateView { phase: Phase::Stopped, run_finished_at: Some(now), ..record },
                ),
                ..s
            },
            actions: seq![StopActionView::WriteRecord] + last,
        }
    }
}

/// What stopping does about an event that it waits for.
pub open spec fn next(s: Stopping, event: StopEvent, now: i64) -> StopNext {
    match event {
        StopEvent::Record { loaded, stat, group_exists } => after_record(
            s.model(),
            loaded,
            text::opt_string(stat),
            group_exists,
        ),
        StopEvent::RunnerAlive { alive, waited_ms } => after_runner(
            s.model(),
            s.record->Some_0@,
            alive,
            waited_ms,
        ),
        StopEvent::GroupExists(exists_now) => after_group(
            s.model(),
            s.record->Some_0@,
            match s.stage {
                StopStage::AskedGroup { forced } => forced,
                _ => false,
            },
            exists_now,
        ),
        StopEvent::After { state: after, stat } => after_confirm(
            s.model(),
            s.record->Some_0@,
            match s.stage {
                StopStage::Confirming { forced } => forced,
                _ => false,
            },
            recorded(s.record->Some_0@, after, text::opt_string(stat)),
            now,
        ),
    }
}

/// Stopping after a step, and what to do.
pub open spec fn answer(s: Stopping, actions: Seq<StopAction>) -> StopNext {
    StopNext { stopping: s.model(), actions: actions_view(actions) }
}

impl Stopping {
    pub fn new(service: &Service, settings: &Settings) -> (r: (Stopping, Vec<StopAction>))
        ensures
            r.0.grace_seconds == supervise::at_least_one(
                match service.stop_timeout_seconds {
                    Some(seconds) => seconds as int,
                    None => settings.stop_timeout_seconds as int,
                },
            ),
            r.0.record is None,
            r.0.stage == StopStage::Reading,
            actions_view(r.1@) == seq![StopActionView::ReadRecord],
    {
        let seconds = service.stop_timeout(settings);
        let grace_seconds = if seconds < 1 {
            1
        } else {
            seconds
        };
        let actions = vec![StopAction::ReadRecord];
        assert(actions_view(actions@) =~= seq![StopActionView::ReadRecord]);
        (Stopping { grace_seconds, record: None, stage: StopStage::Reading }, actions)
    }

    fn on_record(&mut self, loaded: Loaded, stat: Option<String>, group_exists: bool) -> (r: Vec<
        StopAction,
    >)
        ensures
            answer(*final(self), r@) == after_record(
                old(self).model(),
                loaded,
                text::opt_string(stat),
                group_exists,
            ),
    {
        let mut out: Vec<StopAction> = Vec::new();
        let ghost first = reported(loaded.problem);
        if let Some(problem) = loaded.problem {
            out.push(StopAction::Diagnostic(problem));
        }
        assert(actions_view(out@) =~= first);
        let record = match loaded.state {
            None => {
                self.stage = StopStage::Done;
                out.push(StopAction::ClearStop);
                out.push(StopAction::Marker("NOT RUNNING".to_string()));
                out.push(StopAction::Finish(StopOutcome::NotRunning));
                assert(actions_view(out@) =~= first + seq![
                    StopActionView::ClearStop,
                    StopActionView::Marker("NOT RUNNING"@),
                    StopActionView::Finish(StopOutcome::NotRunning),
                ]);
                return out;
            },
            Some(record) => record,
        };
        let phase = record.effective_phase(text::borrowed(&stat));
        match phase {
            Phase::Building | Phase::Starting | Phase::Running => {
                let pid = record.runner_pid;
                out.push(StopAction::MarkStop);
                if let Some(pgid) = record.child_pgid {
                    out.push(StopAction::SignalGroup { pgid, signal: GroupSignal::Term });
                }
                out.push(StopAction::SignalRunner { pid, signal: GroupSignal::Term });
                out.push(StopAction::CheckRunner { pid });
                self.record = Some(record);
                self.stage = StopStage::AskedRunner;
                assert(actions_view(out@) =~= after_record(
                    old(self).model(),
                    loaded,
                    text::opt_string(stat),
                    group_exists,
                ).actions);
            },
            _ => {
                // Already finished: only clean up a process group orphaned by a
                // killed runner.
                out.push(StopAction::ClearStop);
                let leftover = record.child_pgid;
                self.record = Some(record);
                self.stage = StopStage::Done;
                if let Some(pgid) = leftover {
                    if group_exists {
                        let mut line = "STOPPED (killed leftover process group of the ".to_string();
                        line.append(phase.display());
                        line.append(")");
                        out.push(
                            StopAction::Reap { pgid, grace_seconds: self.grace_seconds },
                        );
                        out.push(StopAction::Marker(line));
                        out.push(StopAction::Finish(StopOutcome::CleanedUp));
                        assert(actions_view(out@) =~= after_record(
                            old(self).model(),
                            loaded,
                            text::opt_string(stat),
                            group_exists,
                        ).actions);
                        return out;
                    }
                }
                out.push(StopAction::Marker("NOT RUNNING".to_string()));
                out.push(StopAction::Finish(StopOutcome::NotRunning));
                assert(actions_view(out@) =~= after_record(
                    old(self).model(),
                    loaded,
                    text::opt_string(stat),
                    group_exists,
                ).actions);
            },
        }
        out
    }

    fn on_runner(&mut self, alive: bool, waited_ms: u64) -> (r: Vec<StopAction>)
        requires
            old(self).record is Some,
        ensures
            answer(*final(self), r@) == after_runner(
                old(self).model(),
                old(self).record->Some_0@,
                alive,
                waited_ms,
            ),
    {
        let mut out: Vec<StopAction> = Vec::new();
        let killed = match self.stage {
            StopStage::KilledRunner => true,
            _ => false,
        };
        let asked = match self.stage {
            StopStage::AskedRunner => true,
            _ => false,
        };
        let patience: u128 = if killed {
            KILL_WAIT_MS as u128
        } else {
            1000 * (self.grace_seconds as u128 + 2)
        };
        if let Some(record) = &self.record {
            let pid = record.runner_pid;
            if alive && (waited_ms as u128) < patience {
                out.push(StopAction::Sleep(50));
                out.push(StopAction::CheckRunner { pid });
            } else if alive && asked {
                out.push(StopAction::SignalRunner { pid, signal: GroupSignal::Kill });
                out.push(StopAction::CheckRunner { pid });
                self.stage = StopStage::KilledRunner;
            } else {
                match record.child_pgid {
                    Some(pgid) => {
                        out.push(StopAction::CheckGroup { pgid });
                        self.stage = StopStage::AskedGroup { forced: killed };
                    },
                    None => {
                        out.push(StopAction::ReadAgain);
                        self.stage = StopStage::Confirming { forced: killed };
                    },
                }
            }
        }
        assert(actions_view(out@) =~= after_runner(
            old(self).model(),
            old(self).record->Some_0@,
            alive,
            waited_ms,
        ).actions);
        out
    }

    fn on_group(&mut self, forced: bool, exists_now: bool) -> (r: Vec<StopAction>)
        requires
            old(self).record matches Some(record) && record.child_pgid is Some,
        ensures
            answer(*final(self), r@) == after_group(
                old(self).model(),
                old(self).record->Some_0@,
                forced,
                exists_now,
            ),
    {
        let mut out: Vec<StopAction> = Vec::new();
        if exists_now {
            if let Some(record) = &self.record {
                if let Some(pgid) = record.child_pgid {
                    out.push(StopAction::SignalGroup { pgid, signal: GroupSignal::Kill });
                }
            }
        }
        out.push(StopAction::ReadAgain);
        self.stage = StopStage::Confirming { forced: forced || exists_now };
        assert(actions_view(out@) =~= after_group(
            old(self).model(),
            old(self).record->Some_0@,
            forced,
            exists_now,
        ).actions);
        out
    }

    fn on_after(
        &mut self,
        forced: bool,
        after: Option<State>,
        stat: Option<String>,
        now: i64,
    ) -> (r: Vec<StopAction>)
        requires
            old(self).record is Some,
        ensures
            answer(*final(self), r@) == after_confirm(
                old(self).model(),
                old(self).record->Some_0@,
                forced,
                recorded(old(self).record->Some_0@, after, text::opt_string(stat)),
                now,
            ),
    {
        let mut out: Vec<StopAction> = Vec::new();
        let mut done = false;
        if let Some(record) = &self.record {
            if let Some(there) = &after {
                if there.generation == record.generation {
                    done = match there.effective_phase(text::borrowed(&stat)) {
                        Phase::Stopped | Phase::Exited | Phase::RunFailed
                        | Phase::BuildFailed => true,
                        _ => false,
                    };
                }
            }
        }
        assert(done == recorded(old(self).record->Some_0@, after, text::opt_string(stat)));
        if !done {
            if let Some(record) = &mut self.record {
                record.phase = Phase::Stopped;
                record.run_finished_at = Some(now);
            }
            out.push(StopAction::WriteRecord);
        }
        self.stage = StopStage::Done;
        out.push(StopAction::ClearStop);
        let line = if forced {
            "STOPPED (forced)".to_string()
        } else {
            "STOPPED".to_string()
        };
        out.push(StopAction::Marker(line));
        out.push(
            StopAction::Finish(
                if forced {
                    StopOutcome::Forced
                } else {
                    StopOutcome::Stopped
                },
            ),
        );
        assert(actions_view(out@) =~= after_confirm(
            old(self).model(),
            old(self).record->Some_0@,
            forced,
            recorded(old(self).record->Some_0@, after, text::opt_string(stat)),
            now,
        ).actions);
        out
    }

    /// Take in what was seen and say what to do. `now` is the time of day in
    /// milliseconds.
    pub fn step(&mut self, event: StopEvent, now: i64) -> (r: Vec<StopAction>)
        requires
            expects(*old(self), event),
        ensures
            answer(*final(self), r@) == next(*old(self), event, now),
    {
        match event {
            StopEvent::Record { loaded, stat, group_exists } => self.on_record(
                loaded,
                stat,
                group_exists,
            ),
            StopEvent::RunnerAlive { alive, waited_ms } => self.on_runner(alive, waited_ms),
            StopEvent::GroupExists(exists_now) => {
                let forced = match self.stage {
                    StopStage::AskedGroup { forced } => forced,
                    _ => false,
                };
                self.on_group(forced, exists_now)
            },
            StopEvent::After { state: after, stat } => {
                let forced = match self.stage {
                    StopStage::Confirming { forced } => forced,
                    _ => false,
                };
                self.on_after(forced, after, stat, now)
            },
        }
    }
}

// ------------------------------------------------------------------- aggregate
/// The failures of an invocation, as lines.
pub open spec fn failure_lines(results: Seq<(String, Result<StopOutcome, String>)>) -> Seq<
    Seq<char>,
>
    decreases results.len(),
{
    if results.len() == 0 {
        Seq::empty()
    } else {
        let before = failure_lines(results.drop_last());
        match results.last().1 {
            Ok(_) => before,
            Err(reason) => before.push(
                "STOP FAILED: "@ + results.last().0@ + " ("@ + reason@ + ")"@,
            ),
        }
    }
}

/// What stopping several services comes to: a line for each failure, and the
/// exit code.
pub fn summary(results: &Vec<(String, Result<StopOutcome, String>)>) -> (r: (Vec<String>, i32))
    ensures
        text::texts(r.0@) == failure_lines(results@),
        r.1 == if failure_lines(results@).len() > 0 {
            exit::GENERIC
        } else {
            exit::OK
        },
{
    let mut out: Vec<String> = Vec::new();
    assert(text::texts(out@) =~= failure_lines(results@.take(0)));
    for i in 0..results.len()
        invariant
            text::texts(out@) == failure_lines(results@.take(i as int)),
    {
        let ghost before = out@;
        assert(results@.take(i + 1).drop_last() =~= results@.take(i as int));
        match &results[i].1 {
            Ok(_) => {},
            Err(reason) => {
                let mut line = "STOP FAILED: ".to_string();
                line.append(results[i].0.as_str());
                line.append(" (");
                line.append(reason.as_str());
                line.append(")");
                let ghost text = line@;
                out.push(line);
                assert(text::texts(out@) =~= text::texts(before).push(text));
            },
        }
    }
    assert(results@.take(results@.len() as int) =~= results@);
    let code = if out.len() > 0 {
        exit::GENERIC
    } else {
        exit::OK
    };
    assert(text::texts(out@).len() == out@.len());
    (out, code)
}

// ---------------------------------------------------------------------- laws
/// Stopping a service that does not run is harmless: nothing is signalled and
/// nothing is recorded.
pub proof fn law_stopping_what_does_not_run_signals_nothing(
    s: StoppingView,
    loaded: Loaded,
    stat: Option<Seq<char>>,
    group_exists: bool,
    i: int,
)
    requires
        loaded.state matches Some(record) ==> {
            &&& !state::in_flight(state::effective(record.phase, state::live(record, stat)))
            &&& record.child_pgid is None || !group_exists
        },
        0 <= i < after_record(s, loaded, stat, group_exists).actions.len(),
    ensures
        ({
            let n = after_record(s, loaded, stat, group_exists);
            &&& n.actions[n.actions.len() - 1] == StopActionView::Finish(StopOutcome::NotRunning)
            &&& !(n.actions[i] is SignalGroup) && !(n.actions[i] is SignalRunner)
            &&& !(n.actions[i] is Reap) && !(n.actions[i] is WriteRecord)
            &&& !(n.actions[i] is MarkStop)
        }),
{
}

/// The marker of a requested stop is dropped before anything is signalled, so
/// the runner can tell a requested stop from a crash.
pub proof fn law_stop_is_marked_before_signals(
    s: StoppingView,
    loaded: Loaded,
    stat: Option<Seq<char>>,
    group_exists: bool,
    i: int,
)
    requires
        0 <= i < after_record(s, loaded, stat, group_exists).actions.len(),
        ({
            let action = after_record(s, loaded, stat, group_exists).actions[i];
            action is SignalGroup || action is SignalRunner
        }),
    ensures
        exists|k: int|
            0 <= k < i && after_record(s, loaded, stat, group_exists).actions[k]
                == StopActionView::MarkStop,
{
    let n = after_record(s, loaded, stat, group_exists);
    let k = reported(loaded.problem).len() as int;
    assert(n.actions[k] == StopActionView::MarkStop);
}

/// Every stop removes the marker again before it ends.
pub proof fn law_every_stop_clears_its_marker(s: Stopping, event: StopEvent, now: i64)
    requires
        expects(s, event),
    ensures
        ({
            let n = next(s, event, now);
            n.stopping.stage == StopStage::Done ==> n.actions.contains(StopActionView::ClearStop)
                && n.actions[n.actions.len() - 1] is Finish
        }),
{
    let n = next(s, event, now);
    if n.stopping.stage == StopStage::Done {
        match event {
            StopEvent::Record { loaded, .. } => {
                let k = reported(loaded.problem).len() as int;
                assert(n.actions[k] == StopActionView::ClearStop);
            },
            _ => {
                let k = n.actions.len() - 3;
                assert(n.actions[k] == StopActionView::ClearStop);
            },
        }
    }
}

/// A process is killed only after it was asked to end and did not.
pub proof fn law_kill_only_what_survived(s: Stopping, event: StopEvent, now: i64, i: int)
    requires
        expects(s, event),
        0 <= i < next(s, event, now).actions.len(),
    ensures
        next(s, event, now).actions[i] matches StopActionView::SignalRunner { signal, .. }
            ==> signal == GroupSignal::Kill ==> (event matches StopEvent::RunnerAlive {
            alive,
            waited_ms,
        } && alive && s.stage == StopStage::AskedRunner && waited_ms >= 1000 * (s.grace_seconds
            + 2)),
        next(s, event, now).actions[i] matches StopActionView::SignalGroup { signal, .. }
            ==> signal == GroupSignal::Kill ==> event == StopEvent::GroupExists(true),
{
}

/// A stop leaves an outcome behind: where the runner recorded none for the
/// session, the stop records that it was stopped.
pub proof fn law_a_stop_leaves_an_outcome(
    s: StoppingView,
    record: StateView,
    forced: bool,
    after: Option<State>,
    stat: Option<Seq<char>>,
    now: i64,
)
    ensures
        ({
            let n = after_confirm(s, record, forced, recorded(record, after, stat), now);
            &&& n.stopping.stage == StopStage::Done
            &&& n.actions.contains(StopActionView::WriteRecord) <==> !recorded(
                record,
                after,
                stat,
            )
            &&& !recorded(record, after, stat) ==> (n.stopping.record matches Some(written)
                && written.phase == Phase::Stopped && written.generation == record.generation
                && written.service == record.service)
            &&& recorded(record, after, stat) ==> (after matches Some(there)
                && there.generation == record.generation && !state::in_flight(
                state::effective(there.phase, state::live(there, stat)),
            ))
        }),
{
    let n = after_confirm(s, record, forced, recorded(record, after, stat), now);
    if !recorded(record, after, stat) {
        assert(n.actions[0] == StopActionView::WriteRecord);
    }
}

} // verus!

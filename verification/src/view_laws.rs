//! What holds of the plain values by which records and actions are seen: they are
//! the values that the records and actions hold.

use vstd::prelude::*;
use vstd::string::*;

use crate::cmd::start;
use crate::cmd::start::{Failed, StartAction, StartActionView, Started, Starting};
use crate::cmd::stop;
use crate::cmd::stop::{StopAction, StopActionView, Stopping};
use crate::runner;
use crate::runner::{Action, ActionView, Session};
use crate::state::{ProbeState, State};
use crate::text;

verus! {

/// A record is seen as it is, field by field.
pub proof fn law_records_are_seen_as_they_are(s: State)
    ensures
        s@.schema == s.schema,
        s@.service == s.service@,
        s@.generation == s.generation,
        s@.phase == s.phase,
        s@.runner_pid == s.runner_pid,
        s@.runner_start_ticks == s.runner_start_ticks,
        s@.child_pid == s.child_pid,
        s@.child_pgid == s.child_pgid,
        s@.child_kind == text::opt_string(s.child_kind),
        s@.session_started_at == s.session_started_at,
        s@.session_start_offset == s.session_start_offset,
        s@.build_started_at == s.build_started_at,
        s@.build_finished_at == s.build_finished_at,
        s@.build_exit_code == s.build_exit_code,
        s@.run_started_at == s.run_started_at,
        s@.run_finished_at == s.run_finished_at,
        s@.run_exit_code == s.run_exit_code,
        s@.ready_at == s.ready_at,
        s@.ready_via == text::opt_string(s.ready_via),
        s@.config_hash == s.config_hash@,
        s@.agproc_version == s.agproc_version@,
        s@.updated_at == s.updated_at,
        s@.probe == s.probe@,
{
}

/// The probe part of a record is seen as it is.
pub proof fn law_probe_records_are_seen_as_they_are(p: ProbeState)
    ensures
        p@.kind == p.kind@,
        p@.target == p.target@,
        p@.attempts == p.attempts,
        p@.last_error == text::opt_string(p.last_error),
        p@.foreign_port_pid == p.foreign_port_pid,
{
}

/// What a session does is seen as it is, in order.
pub proof fn law_session_actions_are_seen_as_they_are(actions: Seq<Action>, i: int)
    ensures
        runner::actions_view(actions).len() == actions.len(),
        0 <= i < actions.len() ==> {
            let seen = runner::actions_view(actions)[i];
            match actions[i] {
                Action::Marker(line) => seen == ActionView::Marker(line@),
                Action::Publish => seen is Publish,
                Action::BeginRun => seen is BeginRun,
                Action::EndNarrative => seen is EndNarrative,
                Action::Terminate => seen is Terminate,
                Action::RemoveConsole => seen is RemoveConsole,
                Action::LoadEnv => seen is LoadEnv,
                Action::SpawnBuild => seen is SpawnBuild,
                Action::WatchBuild { timeout_seconds: n } => seen == ActionView::WatchBuild {
                    timeout_seconds: n,
                },
                Action::ReadClock => seen is ReadClock,
                Action::CheckStop => seen is CheckStop,
                Action::FindListeners => seen is FindListeners,
                Action::SpawnRun => seen is SpawnRun,
                Action::WatchProbe => seen is WatchProbe,
                Action::WatchReady => seen is WatchReady,
                Action::Exit(code) => seen == ActionView::Exit(code),
            }
        },
{
}

/// A session is seen as where it stands, who held its port, and its record.
pub proof fn law_sessions_are_seen_as_they_are(s: Session, actions: Seq<Action>)
    ensures
        s.model().stage == s.stage,
        s.model().preflight == s.preflight,
        s.model().state == s.state@,
        runner::answer(s, actions).session == s.model(),
        runner::answer(s, actions).actions == runner::actions_view(actions),
{
}

/// What a start does is seen as it is, in order.
pub proof fn law_start_actions_are_seen_as_they_are(actions: Seq<StartAction>, i: int)
    ensures
        start::actions_view(actions).len() == actions.len(),
        0 <= i < actions.len() ==> {
            let seen = start::actions_view(actions)[i];
            match actions[i] {
                StartAction::Marker(line) => seen == StartActionView::Marker(line@),
                StartAction::Diagnostic(line) => seen == StartActionView::Diagnostic(line@),
                StartAction::Reap { pgid: g, grace_seconds: n } => seen == StartActionView::Reap {
                    pgid: g,
                    grace_seconds: n,
                },
                StartAction::StopService => seen is StopService,
                StartAction::SeekConsole => seen is SeekConsole,
                StartAction::Pump => seen is Pump,
                StartAction::Flush => seen is Flush,
                StartAction::Sleep(ms) => seen == StartActionView::Sleep(ms),
                StartAction::TryLock => seen is TryLock,
                StartAction::ReadRecord => seen is ReadRecord,
                StartAction::SpawnRunner { args: list } => seen == StartActionView::SpawnRunner {
                    args: text::texts(list@),
                },
                StartAction::LookAgain => seen is LookAgain,
                StartAction::CheckRunner { pid: p } => seen == StartActionView::CheckRunner {
                    pid: p,
                },
                StartAction::Finish(result) => seen is Finish && match result {
                    Ok(started) => seen->Finish_0 == Ok::<Started, (i32, Seq<char>)>(started),
                    Err(failed) => seen->Finish_0 == Err::<Started, (i32, Seq<char>)>(
                        (failed.code, failed.reason@),
                    ),
                },
            }
        },
{
}

/// A start is seen as what it was asked for, and its result as it is.
pub proof fn law_starts_are_seen_as_they_are(s: Starting, r: Result<Started, Failed>)
    ensures
        s.subject().name == s.name@,
        s.subject().config_path == s.config_path.bytes@,
        s.subject().config_hash == s.config_hash@,
        s.subject().restart == s.restart,
        s.subject().timeout == s.timeout,
        s.subject().grace_seconds == s.grace_seconds,
        match r {
            Ok(started) => start::result_view(r) == Ok::<Started, (i32, Seq<char>)>(started),
            Err(failed) => start::result_view(r) == Err::<Started, (i32, Seq<char>)>(
                (failed.code, failed.reason@),
            ),
        },
{
}

/// What stopping a service does is seen as it is, in order.
pub proof fn law_stop_actions_are_seen_as_they_are(actions: Seq<StopAction>, i: int)
    ensures
        stop::actions_view(actions).len() == actions.len(),
        0 <= i < actions.len() ==> {
            let seen = stop::actions_view(actions)[i];
            match actions[i] {
                StopAction::Diagnostic(line) => seen == StopActionView::Diagnostic(line@),
                StopAction::Marker(line) => seen == StopActionView::Marker(line@),
                StopAction::ClearStop => seen is ClearStop,
                StopAction::MarkStop => seen is MarkStop,
                StopAction::SignalGroup { pgid: g, signal: n } => seen
                    == StopActionView::SignalGroup { pgid: g, signal: n },
                StopAction::SignalRunner { pid: p, signal: n } => seen
                    == StopActionView::SignalRunner { pid: p, signal: n },
                StopAction::Sleep(ms) => seen == StopActionView::Sleep(ms),
                StopAction::Reap { pgid: g, grace_seconds: n } => seen == StopActionView::Reap {
                    pgid: g,
                    grace_seconds: n,
                },
                StopAction::WriteRecord => seen is WriteRecord,
                StopAction::ReadRecord => seen is ReadRecord,
                StopAction::CheckRunner { pid: p } => seen == StopActionView::CheckRunner {
                    pid: p,
                },
                StopAction::CheckGroup { pgid: g } => seen == StopActionView::CheckGroup {
                    pgid: g,
                },
                StopAction::ReadAgain => seen is ReadAgain,
                StopAction::Finish(outcome) => seen == StopActionView::Finish(outcome),
            }
        },
{
}

/// Stopping is seen as where it stands, its patience, and the record it was given.
pub proof fn law_stops_are_seen_as_they_are(s: Stopping, actions: Seq<StopAction>)
    ensures
        s.model().grace_seconds == s.grace_seconds,
        s.model().stage == s.stage,
        s.record is None <==> s.model().record is None,
        s.record matches Some(state) ==> s.model().record == Some(state@),
        stop::answer(s, actions).stopping == s.model(),
        stop::answer(s, actions).actions == stop::actions_view(actions),
{
}

} // verus!

//! What stopping a service comes to, whatever state it is in.

use vstd::prelude::*;

use crate::cmd::stop;
use crate::cmd::stop::{StopActionView, StopEvent, StopOutcome, StopStage, Stopping,
    StoppingView};
use crate::state;
use crate::state::{Loaded, Phase, State, StateView};
use crate::supervise::GroupSignal;

verus! {

/// Is a session of this service building, starting or running right now?
pub open spec fn under_way(record: State, stat: Option<Seq<char>>) -> bool {
    state::live(record, stat) && (record.phase == Phase::Building || record.phase
        == Phase::Starting || record.phase == Phase::Running)
}

/// What stands before everything else: the problem with the record, where there
/// was one.
pub open spec fn told_first(loaded: Loaded, actions: Seq<StopActionView>) -> Seq<StopActionView> {
    match loaded.problem {
        Some(line) => seq![StopActionView::Diagnostic(line@)] + actions,
        None => actions,
    }
}

/// Whatever a live session does (it builds, it starts, it runs), stopping it
/// drops the marker, asks the recorded process group and the runner to end, and
/// waits for the runner.
pub proof fn law_sessions_under_way_are_asked_to_end(
    s: StoppingView,
    loaded: Loaded,
    record: State,
    stat: Option<Seq<char>>,
    group_exists: bool,
)
    requires
        loaded.state == Some(record),
        under_way(record, stat),
    ensures
        ({
            let n = stop::after_record(s, loaded, stat, group_exists);
            let runner = seq![
                StopActionView::SignalRunner { pid: record.runner_pid, signal: GroupSignal::Term },
                StopActionView::CheckRunner { pid: record.runner_pid },
            ];
            &&& n.stopping.stage == StopStage::AskedRunner
            &&& n.stopping.record == Some(record@)
            &&& n.stopping.grace_seconds == s.grace_seconds
            &&& record.child_pgid is None ==> n.actions == told_first(
                loaded,
                seq![StopActionView::MarkStop] + runner,
            )
            &&& record.child_pgid is Some ==> n.actions == told_first(
                loaded,
                seq![
                    StopActionView::MarkStop,
                    StopActionView::SignalGroup {
                        pgid: record.child_pgid->Some_0,
                        signal: GroupSignal::Term,
                    },
                ] + runner,
            )
        }),
{
    let n = stop::after_record(s, loaded, stat, group_exists);
    let runner = seq![
        StopActionView::SignalRunner { pid: record.runner_pid, signal: GroupSignal::Term },
        StopActionView::CheckRunner { pid: record.runner_pid },
    ];
    if record.child_pgid is None {
        assert(n.actions =~= told_first(loaded, seq![StopActionView::MarkStop] + runner));
    } else {
        assert(n.actions =~= told_first(
            loaded,
            seq![
                StopActionView::MarkStop,
                StopActionView::SignalGroup {
                    pgid: record.child_pgid->Some_0,
                    signal: GroupSignal::Term,
                },
            ] + runner,
        ));
    }
}

/// Where no session is under way, a stop only clears up: a process group that was
/// left behind is ended with the grace period of the service; without one the
/// service does not run.
pub proof fn law_what_is_not_under_way_is_only_cleared_up(
    s: StoppingView,
    loaded: Loaded,
    stat: Option<Seq<char>>,
    group_exists: bool,
)
    requires
        loaded.state matches Some(record) ==> !under_way(record, stat),
    ensures
        ({
            let n = stop::after_record(s, loaded, stat, group_exists);
            let leftover = loaded.state is Some && (loaded.state->Some_0).child_pgid is Some
                && group_exists;
            &&& n.stopping.stage == StopStage::Done
            &&& n.stopping.grace_seconds == s.grace_seconds
            &&& !leftover ==> n.actions == told_first(
                loaded,
                seq![
                    StopActionView::ClearStop,
                    StopActionView::Marker("NOT RUNNING"@),
                    StopActionView::Finish(StopOutcome::NotRunning),
                ],
            )
            &&& leftover ==> {
                let record = loaded.state->Some_0;
                let phase = if record.phase == Phase::Building || record.phase == Phase::Starting
                    || record.phase == Phase::Running {
                    Phase::Stale
                } else {
                    record.phase
                };
                n.actions == told_first(
                    loaded,
                    seq![
                        StopActionView::ClearStop,
                        StopActionView::Reap {
                            pgid: record.child_pgid->Some_0,
                            grace_seconds: s.grace_seconds,
                        },
                        StopActionView::Marker(
                            "STOPPED (killed leftover process group of the "@
                                + state::phase_words(phase) + ")"@,
                        ),
                        StopActionView::Finish(StopOutcome::CleanedUp),
                    ],
                )
            }
        }),
{
    let n = stop::after_record(s, loaded, stat, group_exists);
    let leftover = loaded.state is Some && (loaded.state->Some_0).child_pgid is Some
        && group_exists;
    if leftover {
        let record = loaded.state->Some_0;
        let phase = state::effective(record.phase, state::live(record, stat));
        assert(n.actions =~= told_first(
            loaded,
            seq![
                StopActionView::ClearStop,
                StopActionView::Reap {
                    pgid: record.child_pgid->Some_0,
                    grace_seconds: s.grace_seconds,
                },
                StopActionView::Marker(
                    "STOPPED (killed leftover process group of the "@ + state::phase_words(phase)
                        + ")"@,
                ),
                StopActionView::Finish(StopOutcome::CleanedUp),
            ],
        ));
    } else {
        assert(n.actions =~= told_first(
            loaded,
            seq![
                StopActionView::ClearStop,
                StopActionView::Marker("NOT RUNNING"@),
                StopActionView::Finish(StopOutcome::NotRunning),
            ],
        ));
    }
}

/// A stop says that a service does not run only where no session of it is under
/// way.
pub proof fn law_not_running_is_said_of_nothing_that_runs(
    s: StoppingView,
    loaded: Loaded,
    stat: Option<Seq<char>>,
    group_exists: bool,
)
    ensures
        stop::after_record(s, loaded, stat, group_exists).actions.contains(
            StopActionView::Finish(StopOutcome::NotRunning),
        ) ==> (loaded.state matches Some(record) ==> !under_way(record, stat)),
{
    let n = stop::after_record(s, loaded, stat, group_exists);
    let said = StopActionView::Finish(StopOutcome::NotRunning);
    if n.actions.contains(said) {
        let i = n.actions.index_of(said);
        assert(n.actions[i] == said);
    }
}

/// A runner that was asked to end has the grace period and two seconds more; one
/// that is still there is killed and has two seconds. A runner that is gone, or
/// that outlived even that, is waited for no longer: the group is looked at next,
/// and the record where there is no group. What was killed was forced.
pub proof fn law_runners_are_asked_and_then_killed(
    s: Stopping,
    alive: bool,
    waited_ms: u64,
    now: i64,
)
    requires
        s.stage == StopStage::AskedRunner || s.stage == StopStage::KilledRunner,
        s.record is Some,
    ensures
        ({
            let n = stop::next(s, StopEvent::RunnerAlive { alive, waited_ms }, now);
            let record = s.record->Some_0;
            let pid = record.runner_pid;
            let killed = s.stage == StopStage::KilledRunner;
            let patient = if killed {
                waited_ms < 2000
            } else {
                waited_ms < 1000 * s.grace_seconds + 2000
            };
            &&& n.stopping.grace_seconds == s.grace_seconds
            &&& n.stopping.record == Some(record@)
            &&& alive && patient ==> n.stopping.stage == s.stage && n.actions == seq![
                StopActionView::Sleep(50),
                StopActionView::CheckRunner { pid },
            ]
            &&& alive && !patient && !killed ==> n.stopping.stage == StopStage::KilledRunner
                && n.actions == seq![
                StopActionView::SignalRunner { pid, signal: GroupSignal::Kill },
                StopActionView::CheckRunner { pid },
            ]
            &&& !alive || (!patient && killed) ==> match record.child_pgid {
                Some(pgid) => n.stopping.stage == (StopStage::AskedGroup { forced: killed })
                    && n.actions == seq![StopActionView::CheckGroup { pgid }],
                None => n.stopping.stage == (StopStage::Confirming { forced: killed })
                    && n.actions == seq![StopActionView::ReadAgain],
            }
        }),
{
}

/// A group that outlived its runner is killed, and that counts as forced; a group
/// that is gone is left alone.
pub proof fn law_groups_that_survive_are_killed(s: Stopping, exists_now: bool, now: i64)
    requires
        s.stage is AskedGroup,
        s.record matches Some(record) && record.child_pgid is Some,
    ensures
        ({
            let n = stop::next(s, StopEvent::GroupExists(exists_now), now);
            let forced = s.stage->AskedGroup_forced;
            let pgid = (s.record->Some_0).child_pgid->Some_0;
            &&& n.stopping.grace_seconds == s.grace_seconds
            &&& n.stopping.record == Some((s.record->Some_0)@)
            &&& exists_now ==> n.stopping.stage == (StopStage::Confirming { forced: true })
                && n.actions == seq![
                StopActionView::SignalGroup { pgid, signal: GroupSignal::Kill },
                StopActionView::ReadAgain,
            ]
            &&& !exists_now ==> n.stopping.stage == (StopStage::Confirming { forced })
                && n.actions == seq![StopActionView::ReadAgain]
        }),
{
    let n = stop::next(s, StopEvent::GroupExists(exists_now), now);
    let pgid = (s.record->Some_0).child_pgid->Some_0;
    if exists_now {
        assert(n.actions =~= seq![
            StopActionView::SignalGroup { pgid, signal: GroupSignal::Kill },
            StopActionView::ReadAgain,
        ]);
    } else {
        assert(n.actions =~= seq![StopActionView::ReadAgain]);
    }
}

/// In the end the stop is told as forced exactly when something had to be killed.
/// An outcome that the runner recorded for this very session stands: that it was
/// stopped, exited, or failed to build or to run. Where there is none, the record
/// that was found is written again as stopped just now, with nothing else of it
/// changed.
pub proof fn law_stops_end_with_one_recorded_outcome(
    s: Stopping,
    after: Option<State>,
    stat: Option<String>,
    now: i64,
)
    requires
        s.stage is Confirming,
        s.record is Some,
    ensures
        ({
            let n = stop::next(s, StopEvent::After { state: after, stat }, now);
            let forced = s.stage->Confirming_forced;
            let record = (s.record->Some_0)@;
            let last = seq![
                StopActionView::ClearStop,
                StopActionView::Marker(
                    if forced {
                        "STOPPED (forced)"@
                    } else {
                        "STOPPED"@
                    },
                ),
                StopActionView::Finish(
                    if forced {
                        StopOutcome::Forced
                    } else {
                        StopOutcome::Stopped
                    },
                ),
            ];
            let stands = after matches Some(there) && there.generation == record.generation && (
            there.phase == Phase::Stopped || there.phase == Phase::Exited || there.phase
                == Phase::RunFailed || there.phase == Phase::BuildFailed);
            &&& n.stopping.stage == StopStage::Done
            &&& n.stopping.grace_seconds == s.grace_seconds
            &&& stands ==> n.actions == last && n.stopping.record == Some(record)
            &&& !stands ==> n.actions == seq![StopActionView::WriteRecord] + last
                && n.stopping.record == Some(
                StateView { phase: Phase::Stopped, run_finished_at: Some(now), ..record },
            )
        }),
{
}

/// A stop waits for the service's own grace period, else the project's, and for
/// at least a second.
pub proof fn law_grace_is_at_least_a_second(seconds: u64)
    ensures
        seconds >= 1 ==> crate::supervise::at_least_one(seconds as int) == seconds,
        seconds == 0 ==> crate::supervise::at_least_one(seconds as int) == 1,
{
}

/// There is a line for each service that could not be stopped, with its name and
/// the reason, in order; and no other line.
pub proof fn law_every_failed_stop_is_told(
    results: Seq<(String, Result<StopOutcome, String>)>,
    name: String,
    result: Result<StopOutcome, String>,
)
    ensures
        stop::failure_lines(Seq::empty()) == Seq::<Seq<char>>::empty(),
        stop::failure_lines(results.push((name, result))) == match result {
            Ok(_) => stop::failure_lines(results),
            Err(reason) => stop::failure_lines(results).push(
                "STOP FAILED: "@ + name@ + " ("@ + reason@ + ")"@,
            ),
        },
{
    assert(results.push((name, result)).drop_last() =~= results);
}

/// The record of a service is judged as it was read.
pub proof fn law_stops_judge_what_was_read(
    s: Stopping,
    loaded: Loaded,
    stat: Option<String>,
    group_exists: bool,
    now: i64,
)
    ensures
        stop::next(s, StopEvent::Record { loaded, stat, group_exists }, now)
            == stop::after_record(
            StoppingView {
                grace_seconds: s.grace_seconds,
                record: match s.record {
                    Some(state) => Some(state@),
                    None => None,
                },
                stage: s.stage,
            },
            loaded,
            match stat {
                Some(line) => Some(line@),
                None => None,
            },
            group_exists,
        ),
{
}

} // verus!

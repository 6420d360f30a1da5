//! What starting a service comes to, whatever state it is in.

use vstd::prelude::*;

use crate::cmd::start;
use crate::cmd::start::{Failed, StartActionView, StartEvent, StartNext, StartStage, Started,
    Subject};
use crate::paths;
use crate::state;
use crate::state::{Loaded, Phase, State};
use crate::text;
use crate::util;

verus! {

/// The start ends with this code and reason.
pub open spec fn failed(code: i32, reason: Seq<char>) -> StartActionView {
    StartActionView::Finish(Err::<Started, (i32, Seq<char>)>((code, reason)))
}

/// What stands before everything else: the problem with the record, where there
/// was one.
pub open spec fn told_first(loaded: Loaded, actions: Seq<StartActionView>) -> Seq<
    StartActionView,
> {
    match loaded.problem {
        Some(line) => seq![StartActionView::Diagnostic(line@)] + actions,
        None => actions,
    }
}

/// The outcome of a start is that of the phase it settles in: ready where the
/// service runs, else the documented code of the failure and its name.
pub proof fn law_starts_report_the_phase_they_settle_in()
    ensures
        start::settlement(Phase::Running) == Ok::<Started, (i32, Seq<char>)>(Started::Ready),
        start::settlement(Phase::ConfigFailed) == Err::<Started, (i32, Seq<char>)>(
            (3, "configuration error"@),
        ),
        start::settlement(Phase::BuildFailed) == Err::<Started, (i32, Seq<char>)>(
            (4, "build failed"@),
        ),
        start::settlement(Phase::RunFailed) == Err::<Started, (i32, Seq<char>)>(
            (5, "running failed"@),
        ),
        start::settlement(Phase::Exited) == Err::<Started, (i32, Seq<char>)>(
            (5, "running failed (exited right after the probe passed)"@),
        ),
        start::settlement(Phase::Stale) == Err::<Started, (i32, Seq<char>)>(
            (5, "the runner disappeared before recording an outcome"@),
        ),
        start::settlement(Phase::ProbeFailed) == Err::<Started, (i32, Seq<char>)>(
            (6, "probe failed"@),
        ),
        start::settlement(Phase::Stopped) == Err::<Started, (i32, Seq<char>)>(
            (8, "stopped by another agproc invocation"@),
        ),
        forall|phase: Phase|
            phase == Phase::Building || phase == Phase::Starting ==> #[trigger] start::settlement(
                phase,
            ) == Err::<Started, (i32, Seq<char>)>(
                (1, "unexpected phase \""@ + state::phase_name(phase) + "\""@),
            ),
{
}

/// A start takes the lock before it reads anything. While another invocation
/// holds it, the start is refused with the code for that and names the holder and
/// what is known of the service.
pub proof fn law_the_lock_comes_first(
    s: Subject,
    holder: Option<u32>,
    record: Option<State>,
    stat: Option<String>,
    now: i64,
)
    ensures
        start::next(s, StartStage::Locking, StartEvent::Locked, now) == (StartNext {
            stage: StartStage::Deciding,
            actions: seq![StartActionView::ReadRecord],
        }),
        ({
            let n = start::next(
                s,
                StartStage::Locking,
                StartEvent::LockHeld { holder, record, stat },
                now,
            );
            let pid = match holder {
                Some(pid) => pid as nat,
                None => 0,
            };
            let phase = match record {
                Some(state) => state::phase_words(
                    state::effective(state.phase, state::live(state, text::opt_string(stat))),
                ),
                None => "unknown"@,
            };
            &&& n.stage == StartStage::Done
            &&& n.actions == seq![
                StartActionView::Marker(
                    "START IN PROGRESS (pid "@ + text::decimal(pid) + ", phase "@ + phase + ")"@,
                ),
                failed(7, "another start/restart is in progress"@),
            ]
        }),
{
}

/// A service that runs is left alone: it is told with its process, and how long
/// it has been up, and the start succeeds. Where the configuration is known and is
/// another than the running one, that is told too.
pub proof fn law_a_running_service_is_told_and_left_alone(
    s: Subject,
    loaded: Loaded,
    record: State,
    stat: Option<Seq<char>>,
    group_exists: bool,
    now: i64,
)
    requires
        !s.restart,
        loaded.state == Some(record),
        state::live(record, stat),
        record.phase == Phase::Running,
    ensures
        ({
            let n = start::after_record(s, loaded, stat, group_exists, now);
            let pid = match record.child_pid {
                Some(pid) => pid,
                None => record.runner_pid,
            };
            let told = StartActionView::Marker(
                "ALREADY RUNNING (pid "@ + text::decimal(pid as nat) + ", uptime "@
                    + util::duration(now - record.session_started_at) + ", ready)"@,
            );
            let warned = StartActionView::Marker(
                "WARNING: CONFIG CHANGED SINCE START (run `agproc restart "@ + s.name
                    + "` to apply it)"@,
            );
            let done = StartActionView::Finish(
                Ok::<Started, (i32, Seq<char>)>(Started::AlreadyRunning),
            );
            &&& n.stage == StartStage::Done
            &&& s.config_hash.len() == 0 || record.config_hash@ == s.config_hash ==> n.actions
                == told_first(loaded, seq![told, done])
            &&& s.config_hash.len() > 0 && record.config_hash@ != s.config_hash ==> n.actions
                == told_first(loaded, seq![told, warned, done])
        }),
{
    let n = start::after_record(s, loaded, stat, group_exists, now);
    let told = start::already_running(s, record, now)[0];
    let done = StartActionView::Finish(Ok::<Started, (i32, Seq<char>)>(Started::AlreadyRunning));
    if s.config_hash.len() == 0 || record.config_hash@ == s.config_hash {
        assert(n.actions =~= told_first(loaded, seq![told, done]));
    } else {
        let warned = start::already_running(s, record, now)[1];
        assert(n.actions =~= told_first(loaded, seq![told, warned, done]));
    }
}

/// A session that is being built or probed is left alone as well, and the start is
/// refused with the code for that.
pub proof fn law_a_session_on_its_way_is_told_and_left_alone(
    s: Subject,
    loaded: Loaded,
    record: State,
    stat: Option<Seq<char>>,
    group_exists: bool,
    now: i64,
)
    requires
        !s.restart,
        loaded.state == Some(record),
        state::live(record, stat),
        record.phase == Phase::Building || record.phase == Phase::Starting,
    ensures
        ({
            let n = start::after_record(s, loaded, stat, group_exists, now);
            let phase = if record.phase == Phase::Building {
                "building"@
            } else {
                "starting"@
            };
            &&& n.stage == StartStage::Done
            &&& n.actions == told_first(
                loaded,
                seq![
                    StartActionView::Marker(
                        "START IN PROGRESS (pid "@ + text::decimal(record.runner_pid as nat)
                            + ", phase "@ + phase + ")"@,
                    ),
                    failed(7, "service is already "@ + phase),
                ],
            )
        }),
{
    let n = start::after_record(s, loaded, stat, group_exists, now);
    let phase = state::phase_words(record.phase);
    assert(n.actions =~= told_first(
        loaded,
        seq![
            StartActionView::Marker(
                "START IN PROGRESS (pid "@ + text::decimal(record.runner_pid as nat) + ", phase "@
                    + phase + ")"@,
            ),
            failed(7, "service is already "@ + phase),
        ],
    ));
}

/// The arguments of a runner say which project, which service and which
/// generation it works for.
pub open spec fn runner_call(s: Subject, generation: int) -> StartActionView {
    StartActionView::SpawnRunner {
        args: seq![
            "__runner"@,
            "--config"@,
            paths::shown(s.config_path),
            "--service"@,
            s.name,
            "--generation"@,
            text::decimal(generation as nat),
        ],
    }
}

/// A first start spawns a runner for generation 1.
pub proof fn law_a_first_start_spawns_the_first_generation(
    s: Subject,
    loaded: Loaded,
    stat: Option<Seq<char>>,
    group_exists: bool,
    now: i64,
)
    requires
        loaded.state is None,
    ensures
        ({
            let n = start::after_record(s, loaded, stat, group_exists, now);
            &&& n.stage == (StartStage::Spawning { generation: 1 })
            &&& n.actions == told_first(loaded, seq![runner_call(s, 1)])
        }),
{
    let n = start::after_record(s, loaded, stat, group_exists, now);
    assert(n.actions =~= told_first(loaded, seq![runner_call(s, 1)]));
}

/// Where there is nothing to leave alone, a runner is spawned for the generation
/// after the recorded one. What a dead runner left behind is ended first, and a
/// session that is restarted is stopped first; otherwise nothing precedes it.
pub proof fn law_starts_clear_the_way_and_spawn(
    s: Subject,
    loaded: Loaded,
    record: State,
    stat: Option<Seq<char>>,
    group_exists: bool,
    now: i64,
)
    requires
        loaded.state == Some(record),
        record.generation < u64::MAX,
        s.restart || !state::live(record, stat) || !(record.phase == Phase::Building
            || record.phase == Phase::Starting || record.phase == Phase::Running),
    ensures
        ({
            let n = start::after_record(s, loaded, stat, group_exists, now);
            let live = state::live(record, stat);
            let busy = live && (record.phase == Phase::Building || record.phase == Phase::Starting
                || record.phase == Phase::Running);
            let left = !live && record.child_pgid is Some && group_exists;
            let call = runner_call(s, record.generation + 1);
            let pid = match record.child_pid {
                Some(pid) => pid,
                None => record.runner_pid,
            };
            &&& n.stage == (StartStage::Spawning { generation: (record.generation + 1) as u64 })
            &&& left ==> n.actions == told_first(
                loaded,
                seq![
                    StartActionView::Marker(
                        "CLEANING UP LEFTOVER PROCESS GROUP (pgid "@ + text::signed_decimal(
                            record.child_pgid->Some_0 as int,
                        ) + ")"@,
                    ),
                    StartActionView::Reap {
                        pgid: record.child_pgid->Some_0,
                        grace_seconds: s.grace_seconds,
                    },
                    call,
                ],
            )
            &&& busy ==> n.actions == told_first(
                loaded,
                seq![
                    StartActionView::Marker(
                        "RESTARTING (stopping pid "@ + text::decimal(pid as nat) + ")"@,
                    ),
                    StartActionView::StopService,
                    call,
                ],
            )
            &&& !left && !busy ==> n.actions == told_first(loaded, seq![call])
        }),
{
    let n = start::after_record(s, loaded, stat, group_exists, now);
    let live = state::live(record, stat);
    let busy = live && (record.phase == Phase::Building || record.phase == Phase::Starting
        || record.phase == Phase::Running);
    let left = !live && record.child_pgid is Some && group_exists;
    let call = runner_call(s, record.generation + 1);
    if left || busy {
        let way = start::preparation(s, Some(record), stat, group_exists);
        assert(n.actions =~= told_first(loaded, seq![way[0], way[1], call]));
    } else {
        assert(n.actions =~= told_first(loaded, seq![call]));
    }
}

/// The runner that was spawned is the one that is looked at; one that could not be
/// spawned ends the start with the reason.
pub proof fn law_spawned_runners_are_waited_for(
    s: Subject,
    generation: u64,
    pid: u32,
    reason: String,
    now: i64,
)
    ensures
        start::next(
            s,
            StartStage::Spawning { generation },
            StartEvent::Spawned { pid },
            now,
        ) == (StartNext {
            stage: StartStage::Publishing { generation, runner_pid: pid },
            actions: seq![StartActionView::LookAgain],
        }),
        start::next(
            s,
            StartStage::Spawning { generation },
            StartEvent::SpawnFailed(reason),
            now,
        ) == (StartNext { stage: StartStage::Done, actions: seq![failed(1, reason@)] }),
{
}

/// The console stream is read from its beginning as soon as the spawned runner has
/// published the record of its own generation, or is gone, or five seconds have
/// passed; until then it is looked at again every 20 ms.
pub proof fn law_the_console_is_read_once_the_runner_published(
    s: Subject,
    generation: u64,
    runner_pid: u32,
    record: Option<State>,
    stat: Option<Seq<char>>,
    runner_alive: bool,
    elapsed_ms: u64,
)
    ensures
        ({
            let stage = StartStage::Publishing { generation, runner_pid };
            let n = start::after_look(s, stage, record, stat, runner_alive, elapsed_ms);
            let own = record matches Some(state) && state.generation == generation
                && state.runner_pid == runner_pid;
            &&& own || !runner_alive || elapsed_ms >= 5000 ==> n == (StartNext {
                stage: StartStage::Waiting { generation, runner_pid },
                actions: seq![
                    StartActionView::SeekConsole,
                    StartActionView::Pump,
                    StartActionView::LookAgain,
                ],
            })
            &&& !own && runner_alive && elapsed_ms < 5000 ==> n == (StartNext {
                stage,
                actions: seq![StartActionView::Sleep(20), StartActionView::LookAgain],
            })
        }),
{
}

/// The last output is awaited for 80 ms, forwarded in four parts, and then an
/// unended line is printed.
pub proof fn law_the_last_output_is_forwarded(i: int)
    ensures
        start::drained().len() == 9,
        0 <= i < 8 && i % 2 == 0 ==> start::drained()[i] == StartActionView::Sleep(20),
        0 <= i < 8 && i % 2 == 1 ==> start::drained()[i] == StartActionView::Pump,
        start::drained()[8] == StartActionView::Flush,
{
}

/// Is this a record of the generation whose phase is an outcome: any but building
/// and starting, unless its runner is gone?
pub open spec fn outcome_of(
    record: Option<State>,
    stat: Option<Seq<char>>,
    generation: u64,
) -> bool {
    record matches Some(state) && state.generation == generation && !(state::live(state, stat) && (
    state.phase == Phase::Building || state.phase == Phase::Starting))
}

/// A start waits for the outcome of its own generation. It gives up when the
/// runner is gone, after one more look, or when it was told how long to wait and
/// that time has passed; the runner is left alone either way.
pub proof fn law_starts_wait_for_their_own_outcome(
    s: Subject,
    generation: u64,
    runner_pid: u32,
    record: Option<State>,
    stat: Option<Seq<char>>,
    runner_alive: bool,
    elapsed_ms: u64,
)
    ensures
        ({
            let stage = StartStage::Waiting { generation, runner_pid };
            let n = start::after_look(s, stage, record, stat, runner_alive, elapsed_ms);
            let late = s.timeout matches Some(limit) && elapsed_ms > 1000 * limit;
            let there = outcome_of(record, stat, generation);
            let known = match record {
                Some(state) => state::phase_words(
                    state::effective(state.phase, state::live(state, stat)),
                ),
                None => "unknown"@,
            };
            &&& there ==> n == (StartNext {
                stage: StartStage::Settling {
                    phase: (record->Some_0).phase,
                    runner_pid: (record->Some_0).runner_pid,
                    start_ticks: (record->Some_0).runner_start_ticks,
                },
                actions: start::drained().push(
                    StartActionView::CheckRunner { pid: (record->Some_0).runner_pid },
                ),
            })
            &&& !there && !runner_alive ==> n == (StartNext {
                stage: StartStage::LastLook { generation, runner_pid },
                actions: start::drained().push(StartActionView::LookAgain),
            })
            &&& !there && runner_alive && late ==> n == (StartNext {
                stage: StartStage::Done,
                actions: seq![
                    StartActionView::Marker(
                        "STILL STARTING (runner pid "@ + text::decimal(runner_pid as nat)
                            + ", phase "@ + known + ")"@,
                    ),
                    StartActionView::Flush,
                    failed(
                        1,
                        "timed out waiting for the probe (the runner keeps working; use `agproc ps`)"@,
                    ),
                ],
            })
            &&& !there && runner_alive && !late ==> n == (StartNext {
                stage,
                actions: seq![
                    StartActionView::Sleep(25),
                    StartActionView::Pump,
                    StartActionView::LookAgain,
                ],
            })
        }),
{
}

/// After the runner is gone, an outcome that it recorded last still counts; a
/// runner that recorded none failed to start.
pub proof fn law_the_last_record_of_a_runner_counts(
    s: Subject,
    generation: u64,
    runner_pid: u32,
    record: Option<State>,
    stat: Option<Seq<char>>,
    runner_alive: bool,
    elapsed_ms: u64,
)
    ensures
        ({
            let stage = StartStage::LastLook { generation, runner_pid };
            let n = start::after_look(s, stage, record, stat, runner_alive, elapsed_ms);
            &&& outcome_of(record, stat, generation) ==> n == (StartNext {
                stage: StartStage::Settling {
                    phase: (record->Some_0).phase,
                    runner_pid: (record->Some_0).runner_pid,
                    start_ticks: (record->Some_0).runner_start_ticks,
                },
                actions: seq![
                    StartActionView::CheckRunner { pid: (record->Some_0).runner_pid },
                ],
            })
            &&& !outcome_of(record, stat, generation) ==> n == (StartNext {
                stage: StartStage::Done,
                actions: seq![
                    StartActionView::Marker(
                        "RUNNER FAILED TO START (pid "@ + text::decimal(runner_pid as nat)
                            + ")"@,
                    ),
                    failed(
                        1,
                        "runner exited before reaching a settled phase (see the service logs)"@,
                    ),
                ],
            })
        }),
{
}

/// What is reported in the end is the recorded phase while its runner is the same
/// live process, and a session that went stale where it is not and no outcome was
/// recorded.
pub proof fn law_the_outcome_is_that_of_the_recorded_runner(
    phase: Phase,
    runner_pid: u32,
    start_ticks: u64,
    stat: Option<Seq<char>>,
)
    ensures
        ({
            let n = start::after_runner_stat(
                StartStage::Settling { phase, runner_pid, start_ticks },
                stat,
            );
            let gone = !state::same_process(runner_pid, start_ticks, stat) && (phase
                == Phase::Building || phase == Phase::Starting || phase == Phase::Running);
            &&& n.stage == StartStage::Done
            &&& gone ==> n.actions == seq![
                failed(5, "the runner disappeared before recording an outcome"@),
            ]
            &&& !gone ==> n.actions == seq![StartActionView::Finish(start::settlement(phase))]
        }),
{
}

/// There is a line for each service that failed, with its name and the reason, in
/// order; and no other line.
pub proof fn law_every_failed_start_is_told(
    results: Seq<(String, Result<Started, Failed>)>,
    name: String,
    result: Result<Started, Failed>,
)
    ensures
        start::failure_lines(Seq::empty()) == Seq::<Seq<char>>::empty(),
        start::failure_lines(results.push((name, result))) == match result {
            Ok(_) => start::failure_lines(results),
            Err(failed) => start::failure_lines(results).push(
                "START FAILED: "@ + name@ + " ("@ + failed.reason@ + ")"@,
            ),
        },
{
    assert(results.push((name, result)).drop_last() =~= results);
}

/// The exit code of an invocation is the code of the first service that failed,
/// and 0 where none did.
pub proof fn law_the_first_failure_gives_the_code(
    results: Seq<(String, Result<Started, Failed>)>,
    at: int,
)
    requires
        0 <= at <= results.len(),
        forall|i: int| 0 <= i < at ==> (#[trigger] results[i]).1 is Ok,
    ensures
        at == results.len() ==> start::first_code(results) == 0,
        at < results.len() && results[at].1 is Err ==> start::first_code(results) == (
        results[at].1->Err_0).code,
    decreases at,
{
    if at > 0 {
        let rest = results.skip(1);
        assert(results[0].1 is Ok);
        assert forall|i: int| 0 <= i < at - 1 implies (#[trigger] rest[i]).1 is Ok by {
            assert(results[i + 1].1 is Ok);
        }
        law_the_first_failure_gives_the_code(rest, at - 1);
    }
}

/// A record, a look and a last sign of the runner are judged as they were seen.
pub proof fn law_starts_judge_what_was_seen(
    s: Subject,
    stage: StartStage,
    loaded: Loaded,
    record: Option<State>,
    stat: Option<String>,
    flag: bool,
    elapsed_ms: u64,
    now: i64,
)
    ensures
        start::next(
            s,
            stage,
            StartEvent::Record { loaded, stat, group_exists: flag },
            now,
        ) == start::after_record(s, loaded, text::opt_string(stat), flag, now),
        start::next(
            s,
            stage,
            StartEvent::Look { record, stat, runner_alive: flag, elapsed_ms },
            now,
        ) == start::after_look(s, stage, record, text::opt_string(stat), flag, elapsed_ms),
        start::next(s, stage, StartEvent::RunnerStat { stat }, now) == start::after_runner_stat(
            stage,
            text::opt_string(stat),
        ),
{
}

} // verus!

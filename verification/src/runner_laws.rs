//! What holds of every session, whatever happens to it.

use vstd::prelude::*;

use crate::config::{ProbeTarget, Service, Settings};
use crate::exit;
use crate::port::Ownership;
use crate::runner;
use crate::runner::{ActionView, ChildEnd, Event, SessionView, Stage};
use crate::state;
use crate::state::Phase;
use crate::supervise;
use crate::supervise::{Outcome, ProbeRunner, ProbeStep, Tick};

verus! {

/// What is so of a session at every stage.
pub open spec fn consistent(service: Service, s: SessionView) -> bool {
    &&& match s.stage {
        Stage::New => s.state.phase == Phase::Stopped,
        Stage::Env => s.state.phase == first_phase(service),
        Stage::BuildSpawn => s.state.phase == Phase::Building,
        Stage::BuildWait => s.state.phase == Phase::Building,
        Stage::BuildEnded { .. } => s.state.phase == Phase::Building,
        Stage::BuildCancel => s.state.phase == Phase::Building,
        Stage::Preflight => s.state.phase == first_phase(service),
        Stage::RunSpawn => s.state.phase == Phase::Starting,
        Stage::RunProbe => s.state.phase == Phase::Starting,
        Stage::RunVerify { .. } => s.state.phase == Phase::Starting,
        Stage::RunEnded { .. } => s.state.phase == Phase::Starting,
        Stage::RunExit { .. } => s.state.phase == Phase::Starting,
        Stage::RunTerminated => s.state.phase == Phase::Starting,
        Stage::ReadyWait => s.state.phase == Phase::Running,
        Stage::ReadyEnded { .. } => s.state.phase == Phase::Running,
        Stage::ReadyExit { .. } => s.state.phase == Phase::Running,
        Stage::ReadyTerminated { .. } => s.state.phase == Phase::Running,
        Stage::Done { code } => {
            &&& state::is_settled(s.state.phase)
            &&& s.state.phase != Phase::Running
            &&& s.state.phase != Phase::Stale
            &&& code == state::phase_code(s.state.phase)
        },
    }
    // Nothing was spawned before the environment was there.
    &&& s.stage == Stage::New || s.stage == Stage::Env || s.stage == Stage::BuildSpawn
        ==> s.state.child_pid is None
    // Readiness is recorded exactly once it was reached.
    &&& ready_stage(s.stage) ==> s.state.ready_at is Some
    &&& !ready_stage(s.stage) && !(s.stage is Done) ==> s.state.ready_at is None
    &&& s.stage is Done && s.state.phase == Phase::Exited ==> s.state.ready_at is Some
    &&& s.stage is Done && (s.state.phase == Phase::RunFailed || s.state.phase
        == Phase::ProbeFailed || s.state.phase == Phase::BuildFailed || s.state.phase
        == Phase::ConfigFailed) ==> s.state.ready_at is None
    &&& build_stage(s.stage) ==> service.build_cmd is Some
}

/// The phase that a session records first.
pub open spec fn first_phase(service: Service) -> Phase {
    if service.build_cmd is Some {
        Phase::Building
    } else {
        Phase::Starting
    }
}

pub open spec fn ready_stage(stage: Stage) -> bool {
    stage is ReadyWait || stage is ReadyEnded || stage is ReadyExit || stage is ReadyTerminated
}

pub open spec fn build_stage(stage: Stage) -> bool {
    stage is BuildSpawn || stage is BuildWait || stage is BuildEnded || stage is BuildCancel
}

/// Has the session begun to write run logs?
pub open spec fn run_begun(stage: Stage) -> bool {
    stage is RunSpawn || stage is RunProbe || stage is RunVerify || stage is RunEnded
        || stage is RunExit || stage is RunTerminated || ready_stage(stage)
}

/// A session that begins is consistent, and every step keeps it so.
pub proof fn law_sessions_stay_consistent(
    service: Service,
    settings: Settings,
    target: ProbeTarget,
    s: SessionView,
    event: Event,
    now: i64,
)
    requires
        consistent(service, s),
        runner::expects(s.stage, event),
    ensures
        consistent(service, runner::next(service, settings, target, s, event, now).session),
{
}

/// The session that is opened is consistent.
pub proof fn law_opened_sessions_are_consistent(
    service: Service,
    target: ProbeTarget,
    generation: u64,
    hash: Seq<char>,
    pid: u32,
    ticks: Option<u64>,
    now: i64,
)
    ensures
        consistent(
            service,
            SessionView {
                stage: Stage::New,
                preflight: None,
                state: runner::initial_state(service, target, generation, hash, pid, ticks, now),
            },
        ),
{
}

/// A session ends with its outcome recorded: the last thing it does is to leave
/// with the code of a settled phase, after it has published that phase.
pub proof fn law_every_end_is_published(
    service: Service,
    settings: Settings,
    target: ProbeTarget,
    s: SessionView,
    event: Event,
    now: i64,
)
    requires
        runner::expects(s.stage, event),
    ensures
        ({
            let n = runner::next(service, settings, target, s, event, now);
            let last = n.actions.len() - 1;
            &&& n.actions.len() > 0
            &&& n.session.stage is Done <==> n.actions[last] is Exit
            &&& n.session.stage is Done ==> {
                &&& n.actions[last] == ActionView::Exit(state::phase_code(n.session.state.phase))
                &&& n.actions.contains(ActionView::Publish)
                &&& state::is_settled(n.session.state.phase)
            }
        }),
{
    let n = runner::next(service, settings, target, s, event, now);
    let len = n.actions.len() as int;
    if n.session.stage is Done {
        if n.actions[len - 2] == ActionView::Publish {
        } else {
            assert(n.actions[len - 3] == ActionView::Publish);
        }
    }
}

/// A probe that passed against a listener that is confirmed foreign never makes
/// the service ready: the child is stopped and the session fails.
pub proof fn law_foreign_listener_is_never_ready(
    service: Service,
    target: ProbeTarget,
    s: SessionView,
    attempts: u32,
    owner: Ownership,
    now: i64,
)
    ensures
        ({
            let n = runner::after_verify(service, target, s, attempts, owner, now);
            &&& owner is ConfirmedForeign ==> n.session.stage == (Stage::Done {
                code: exit::PROBE_FAILED,
            }) && n.session.state.phase == Phase::ProbeFailed && n.actions.contains(
                ActionView::Terminate,
            ) && n.session.state.ready_at == s.state.ready_at
            &&& !(owner is ConfirmedForeign) ==> n.session.stage == Stage::ReadyWait
                && n.session.state.phase == Phase::Running
        }),
{
    let n = runner::after_verify(service, target, s, attempts, owner, now);
    if owner is ConfirmedForeign {
        assert(n.actions[0] == ActionView::Terminate);
    }
}

/// A session becomes ready in one way only: its probe passed while the child was
/// watched, and the owner of the probe port was looked up after that.
pub proof fn law_ready_only_after_probe_and_verification(
    service: Service,
    settings: Settings,
    target: ProbeTarget,
    s: SessionView,
    event: Event,
    now: i64,
)
    requires
        runner::expects(s.stage, event),
    ensures
        ({
            let n = runner::next(service, settings, target, s, event, now).session.stage;
            &&& n is ReadyWait ==> s.stage is RunVerify && event is Listeners
            &&& n is RunVerify ==> s.stage is RunProbe && (event matches Event::Ended { outcome }
                && outcome is Ready)
            &&& ready_stage(n) ==> ready_stage(s.stage) || s.stage is RunVerify
        }),
{
}

/// A child that exits before it is ready ends the session: it failed, unless a
/// stop was asked for.
pub proof fn law_exit_before_ready_is_a_failure(
    service: Service,
    settings: Settings,
    target: ProbeTarget,
    s: SessionView,
    code: i32,
    watched_ms: i64,
    stop: bool,
    now: i64,
    over: i64,
    later: i64,
)
    requires
        s.stage == Stage::RunProbe,
    ensures
        ({
            let end = Event::Ended { outcome: Outcome::Exited(code) };
            let clock = Event::Clock { watched_ms };
            let asked = Event::StopRequested(stop);
            let first = runner::next(service, settings, target, s, end, now).session;
            let second = runner::next(service, settings, target, first, clock, over).session;
            let third = runner::next(service, settings, target, second, asked, later).session;
            &&& runner::expects(first.stage, clock)
            &&& runner::expects(second.stage, asked)
            &&& third.state.phase == if stop {
                Phase::Stopped
            } else {
                Phase::RunFailed
            }
            &&& third.state.run_exit_code == Some(code)
            &&& third.state.run_finished_at == Some(over)
            &&& third.stage == (Stage::Done {
                code: if stop {
                    exit::SUPERSEDED
                } else {
                    exit::RUN_FAILED
                },
            })
        }),
{
}

proof fn lemma_no_time_with_terminate(
    service: Service,
    settings: Settings,
    target: ProbeTarget,
    s: SessionView,
    event: Event,
    now: i64,
)
    requires
        runner::expects(s.stage, event),
        event is Clock || event is SpawnFailed,
    ensures
        ({
            let n = runner::next(service, settings, target, s, event, now);
            forall|i: int| 0 <= i < n.actions.len() ==> !(#[trigger] n.actions[i] is Terminate)
        }),
{
}

proof fn lemma_times_are_recorded_by_the_clock(
    service: Service,
    settings: Settings,
    target: ProbeTarget,
    s: SessionView,
    event: Event,
    now: i64,
)
    requires
        runner::expects(s.stage, event),
        !(event is Clock || event is SpawnFailed),
    ensures
        ({
            let n = runner::next(service, settings, target, s, event, now).session.state;
            n.build_finished_at == s.state.build_finished_at && n.run_finished_at
                == s.state.run_finished_at
        }),
{
}

/// A child that was spawned is recorded as finished only after its process group
/// is over: the step that asks to end the group records no time, and the step
/// after it records the time at which it is taken.
pub proof fn law_ends_are_timed_after_the_group_is_over(
    service: Service,
    settings: Settings,
    target: ProbeTarget,
    s: SessionView,
    event: Event,
    now: i64,
)
    requires
        runner::expects(s.stage, event),
    ensures
        ({
            let n = runner::next(service, settings, target, s, event, now);
            &&& n.actions.contains(ActionView::Terminate) ==> n.session.state.build_finished_at
                == s.state.build_finished_at && n.session.state.run_finished_at
                == s.state.run_finished_at
            &&& n.session.stage is BuildEnded || n.session.stage is RunEnded
                || n.session.stage is ReadyEnded ==> n.actions == seq![
                ActionView::Terminate,
                ActionView::ReadClock,
            ]
            &&& s.stage is BuildEnded ==> n.session.state.build_finished_at == Some(now)
            &&& s.stage is RunEnded || s.stage is ReadyEnded
                ==> n.session.state.run_finished_at == Some(now)
            &&& n.session.state.build_finished_at != s.state.build_finished_at
                ==> s.stage is BuildEnded || event is SpawnFailed
            &&& n.session.state.run_finished_at != s.state.run_finished_at
                ==> s.stage is RunEnded || s.stage is ReadyEnded || event is SpawnFailed
        }),
{
    let actions = runner::next(service, settings, target, s, event, now).actions;
    if event is Clock || event is SpawnFailed {
        lemma_no_time_with_terminate(service, settings, target, s, event, now);
        assert(!actions.contains(ActionView::Terminate));
    } else {
        lemma_times_are_recorded_by_the_clock(service, settings, target, s, event, now);
    }
}

/// The time that a session was ready for ends when its process group is over.
pub proof fn law_ready_time_ends_with_the_group(
    service: Service,
    settings: Settings,
    target: ProbeTarget,
    s: SessionView,
    watched_ms: i64,
    now: i64,
)
    requires
        s.stage is ReadyEnded,
    ensures
        ({
            let n = runner::next(
                service,
                settings,
                target,
                s,
                Event::Clock { watched_ms },
                now,
            ).session.stage;
            match s.stage {
                Stage::ReadyEnded { end: ChildEnd::Exited { code } } => n == (Stage::ReadyExit {
                    code,
                    ready_ms: watched_ms,
                }),
                _ => n == (Stage::ReadyTerminated { ready_ms: watched_ms }),
            }
        }),
{
}

/// Without the environment of its commands a session spawns nothing: it records
/// a configuration failure and leaves.
pub proof fn law_config_failure_spawns_nothing(
    service: Service,
    settings: Settings,
    target: ProbeTarget,
    s: SessionView,
    reason: String,
    now: i64,
)
    requires
        s.stage == Stage::Env,
        consistent(service, s),
    ensures
        ({
            let n = runner::next(
                service,
                settings,
                target,
                s,
                Event::Env(Err(reason)),
                now,
            );
            &&& n.session.state.phase == Phase::ConfigFailed
            &&& n.session.stage == (Stage::Done { code: exit::CONFIG })
            &&& n.session.state.child_pid is None
            &&& forall|i: int|
                0 <= i < n.actions.len() ==> !(#[trigger] n.actions[i] is SpawnBuild)
                    && !(n.actions[i] is SpawnRun)
        }),
{
}

proof fn lemma_begin_is_asked_in_preflight(
    service: Service,
    settings: Settings,
    target: ProbeTarget,
    s: SessionView,
    event: Event,
    now: i64,
)
    requires
        runner::expects(s.stage, event),
    ensures
        ({
            let n = runner::next(service, settings, target, s, event, now);
            &&& s.stage is Preflight ==> n.actions.contains(ActionView::BeginRun)
                && n.actions.contains(ActionView::SpawnRun)
            &&& !(s.stage is Preflight) ==> forall|i: int|
                0 <= i < n.actions.len() ==> !(#[trigger] n.actions[i] is BeginRun) && !(
                n.actions[i] is SpawnRun)
            &&& run_begun(s.stage) ==> forall|i: int|
                0 <= i < n.actions.len() ==> !(#[trigger] n.actions[i] is SpawnBuild)
        }),
{
    let n = runner::next(service, settings, target, s, event, now);
    if s.stage is Preflight {
        let len = n.actions.len() as int;
        assert(n.actions[len - 4] == ActionView::BeginRun);
        assert(n.actions[len - 1] == ActionView::SpawnRun);
    }
}

/// The run logs are begun once, right before `run-cmd` is spawned, and no build
/// is spawned or watched from then on.
pub proof fn law_run_logs_begin_with_the_run(
    service: Service,
    settings: Settings,
    target: ProbeTarget,
    s: SessionView,
    event: Event,
    now: i64,
)
    requires
        runner::expects(s.stage, event),
    ensures
        ({
            let n = runner::next(service, settings, target, s, event, now);
            &&& n.actions.contains(ActionView::BeginRun) <==> s.stage is Preflight
            &&& n.actions.contains(ActionView::SpawnRun) <==> s.stage is Preflight
            &&& run_begun(n.session.stage) ==> run_begun(s.stage) || s.stage is Preflight
            &&& run_begun(s.stage) ==> run_begun(n.session.stage) || n.session.stage is Done
            &&& n.actions.contains(ActionView::SpawnBuild) ==> !run_begun(s.stage)
            &&& build_stage(n.session.stage) ==> !run_begun(s.stage)
        }),
{
    let n = runner::next(service, settings, target, s, event, now);
    lemma_begin_is_asked_in_preflight(service, settings, target, s, event, now);
    let actions = n.actions;
    assert(actions.contains(ActionView::BeginRun) ==> s.stage is Preflight);
    assert(actions.contains(ActionView::SpawnRun) ==> s.stage is Preflight);
    assert(actions.contains(ActionView::SpawnBuild) ==> !run_begun(s.stage));
}

/// The console stream is removed exactly at the end of a session that was ready;
/// a session that failed before that keeps it.
pub proof fn law_console_is_kept_on_failure(
    service: Service,
    settings: Settings,
    target: ProbeTarget,
    s: SessionView,
    event: Event,
    now: i64,
)
    requires
        runner::expects(s.stage, event),
    ensures
        ({
            let n = runner::next(service, settings, target, s, event, now);
            n.actions.contains(ActionView::RemoveConsole) <==> n.session.stage is Done
                && ready_stage(s.stage)
        }),
{
    let n = runner::next(service, settings, target, s, event, now);
    if n.session.stage is Done && ready_stage(s.stage) {
        assert(n.actions[2] == ActionView::RemoveConsole);
    }
}

/// A session never changes whose record it is.
pub proof fn law_sessions_keep_their_identity(
    service: Service,
    settings: Settings,
    target: ProbeTarget,
    s: SessionView,
    event: Event,
    now: i64,
)
    ensures
        ({
            let n = runner::next(service, settings, target, s, event, now).session.state;
            &&& n.service == s.state.service
            &&& n.generation == s.state.generation
            &&& n.runner_pid == s.state.runner_pid
            &&& n.runner_start_ticks == s.state.runner_start_ticks
            &&& n.config_hash == s.state.config_hash
            &&& n.session_started_at == s.state.session_started_at
            &&& n.session_start_offset == s.state.session_start_offset
            &&& n.schema == s.state.schema
        }),
{
}

/// Watching a child ends only with what the session waits for: a build with its
/// exit, its timeout or a signal; a probed child with anything but a timeout; a
/// ready child with its exit or a signal.
pub proof fn law_watching_ends_as_sessions_expect(
    exited: Option<i32>,
    tick: Tick,
    before: ProbeRunner,
    now: u64,
    after: ProbeRunner,
    step: ProbeStep,
)
    requires
        supervise::probe_round(before, tick.reply, now, after, step),
    ensures
        supervise::interrupted(exited, tick) matches Some(outcome) ==> runner::build_outcome(
            outcome,
        ),
        !tick.timed_out ==> (supervise::interrupted(exited, tick) matches Some(outcome)
            ==> runner::ready_outcome(outcome) && runner::run_outcome(outcome)),
        step.settled matches Some(outcome) ==> runner::run_outcome(outcome),
{
}

} // verus!

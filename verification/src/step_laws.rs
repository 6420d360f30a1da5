//! What each step of a session leads to: which outcome, which exit code, what is
//! recorded and what is said.

use vstd::prelude::*;

use crate::config::{ProbeTarget, Service, Settings};
use crate::port;
use crate::port::Ownership;
use crate::runner;
use crate::runner::{ActionView, ChildEnd, Event, Next, SessionView, Stage};
use crate::state;
use crate::state::{Phase, StateView};
use crate::supervise::Outcome;
use crate::text;
use crate::util;

verus! {

/// The session ends: `line` is said, `phase` is recorded and published, and the
/// session leaves with `code`. Nothing else happens, and nothing else of the
/// record `kept` changes.
pub open spec fn ends_with(
    s: SessionView,
    n: Next,
    kept: StateView,
    phase: Phase,
    code: i32,
    line: Seq<char>,
) -> bool {
    &&& n.session.stage == (Stage::Done { code })
    &&& n.session.preflight == s.preflight
    &&& n.session.state == (StateView { phase, ..kept })
    &&& n.actions == seq![ActionView::Marker(line), ActionView::Publish, ActionView::Exit(code)]
}

/// The session goes on at `stage` with the record `kept`, after it has done
/// exactly `actions`.
pub open spec fn goes_on(
    s: SessionView,
    n: Next,
    stage: Stage,
    kept: StateView,
    actions: Seq<ActionView>,
) -> bool {
    &&& n.session.stage == stage
    &&& n.session.preflight == s.preflight
    &&& n.session.state == kept
    &&& n.actions == actions
}

/// A session begins with its stamp and is building when it has something to
/// build, else starting.
pub proof fn law_sessions_begin_with_what_they_have_to_do(
    service: Service,
    settings: Settings,
    target: ProbeTarget,
    s: SessionView,
    stamp: String,
    now: i64,
)
    requires
        s.stage == Stage::New,
    ensures
        ({
            let n = runner::next(service, settings, target, s, Event::Begin { stamp }, now);
            &&& n.session.state.phase == Phase::Building <==> service.build_cmd is Some
            &&& n.session.state.phase == Phase::Starting <==> service.build_cmd is None
            &&& goes_on(
                s,
                n,
                Stage::Env,
                StateView { phase: n.session.state.phase, ..s.state },
                seq![
                    ActionView::Marker("SESSION "@ + stamp@),
                    ActionView::Publish,
                    ActionView::LoadEnv,
                ],
            )
        }),
{
}

/// With the environment of its commands a session builds when it has something
/// to build; else it goes straight to its run. Without it the session ends with
/// the code of a configuration error, which names the reason.
pub proof fn law_the_environment_comes_first(
    service: Service,
    settings: Settings,
    target: ProbeTarget,
    s: SessionView,
    reason: String,
    now: i64,
)
    requires
        s.stage == Stage::Env,
    ensures
        ({
            let n = runner::next(service, settings, target, s, Event::Env(Ok(())), now);
            &&& service.build_cmd is Some ==> goes_on(
                s,
                n,
                Stage::BuildSpawn,
                StateView { build_started_at: Some(now), ..s.state },
                seq![ActionView::Marker("BUILDING"@), ActionView::Publish, ActionView::SpawnBuild],
            )
            &&& service.build_cmd is None ==> goes_on(
                s,
                n,
                Stage::Preflight,
                s.state,
                seq![ActionView::FindListeners],
            )
        }),
        ends_with(
            s,
            runner::next(service, settings, target, s, Event::Env(Err(reason)), now),
            s.state,
            Phase::ConfigFailed,
            3,
            "CONFIG FAILED: "@ + reason@,
        ),
{
    let n = runner::next(service, settings, target, s, Event::Env(Err(reason)), now);
    assert(n.actions =~= seq![
        ActionView::Marker("CONFIG FAILED: "@ + reason@),
        ActionView::Publish,
        ActionView::Exit(3),
    ]);
}

/// A child that is up is recorded and watched: a build for as long as its timeout
/// says, where 0 stands for none, and `run-cmd` together with its probe.
pub proof fn law_spawned_children_are_recorded_and_watched(
    service: Service,
    settings: Settings,
    target: ProbeTarget,
    s: SessionView,
    pid: u32,
    pgid: i32,
    now: i64,
)
    requires
        s.stage == Stage::BuildSpawn || s.stage == Stage::RunSpawn,
    ensures
        ({
            let n = runner::next(
                service,
                settings,
                target,
                s,
                Event::Spawned { pid, pgid },
                now,
            );
            let kept = StateView { child_pid: Some(pid), child_pgid: Some(pgid), ..s.state };
            &&& s.stage == Stage::RunSpawn ==> goes_on(
                s,
                n,
                Stage::RunProbe,
                kept,
                seq![ActionView::Publish, ActionView::WatchProbe],
            )
            &&& s.stage == Stage::BuildSpawn && service.build_timeout_seconds is Some ==> goes_on(
                s,
                n,
                Stage::BuildWait,
                kept,
                seq![
                    ActionView::Publish,
                    ActionView::WatchBuild {
                        timeout_seconds: service.build_timeout_seconds->Some_0,
                    },
                ],
            )
            &&& s.stage == Stage::BuildSpawn && service.build_timeout_seconds is None ==> goes_on(
                s,
                n,
                Stage::BuildWait,
                kept,
                seq![ActionView::Publish, ActionView::WatchBuild { timeout_seconds: 0 }],
            )
        }),
{
}

/// A command that cannot be spawned fails its own phase, with the code of that
/// phase and the reason.
pub proof fn law_commands_that_cannot_be_spawned_fail_their_phase(
    service: Service,
    settings: Settings,
    target: ProbeTarget,
    s: SessionView,
    reason: String,
    now: i64,
)
    requires
        s.stage == Stage::BuildSpawn || s.stage == Stage::RunSpawn,
    ensures
        ({
            let n = runner::next(service, settings, target, s, Event::SpawnFailed(reason), now);
            &&& s.stage == Stage::BuildSpawn ==> ends_with(
                s,
                n,
                StateView { build_finished_at: Some(now), ..s.state },
                Phase::BuildFailed,
                4,
                "BUILD FAILED (cannot spawn: "@ + reason@ + ")"@,
            )
            &&& s.stage == Stage::RunSpawn ==> ends_with(
                s,
                n,
                StateView { run_finished_at: Some(now), ..s.state },
                Phase::RunFailed,
                5,
                "RUNNING FAILED (cannot spawn: "@ + reason@ + ")"@,
            )
        }),
{
    let n = runner::next(service, settings, target, s, Event::SpawnFailed(reason), now);
    assert(s.stage == Stage::BuildSpawn ==> n.actions =~= seq![
        ActionView::Marker("BUILD FAILED (cannot spawn: "@ + reason@ + ")"@),
        ActionView::Publish,
        ActionView::Exit(4),
    ]);
    assert(s.stage == Stage::RunSpawn ==> n.actions =~= seq![
        ActionView::Marker("RUNNING FAILED (cannot spawn: "@ + reason@ + ")"@),
        ActionView::Publish,
        ActionView::Exit(5),
    ]);
}

/// A session goes on to its run if and only if its build exited with 0. A build
/// that exited with any other code, or ran out of time, ends the session as
/// failed, with the code of a failed build, and nothing is spawned after it.
pub proof fn law_only_a_build_that_exits_with_zero_is_run(
    service: Service,
    settings: Settings,
    target: ProbeTarget,
    s: SessionView,
    watched_ms: i64,
    now: i64,
)
    requires
        s.stage is BuildEnded,
    ensures
        ({
            let n = runner::next(service, settings, target, s, Event::Clock { watched_ms }, now);
            let end = s.stage->BuildEnded_end;
            let over = StateView { build_finished_at: Some(now), ..s.state };
            &&& n.session.stage == Stage::Preflight <==> end == (ChildEnd::Exited { code: 0 })
            &&& end matches ChildEnd::Exited { code } ==> n.session.state.build_exit_code == Some(
                code,
            )
            &&& end == (ChildEnd::Exited { code: 0 }) ==> goes_on(
                s,
                n,
                Stage::Preflight,
                StateView { build_exit_code: Some(0), ..over },
                seq![
                    ActionView::Marker("BUILD SUCCEED"@),
                    ActionView::Publish,
                    ActionView::FindListeners,
                ],
            )
            &&& end is Exited && end->code != 0 ==> ends_with(
                s,
                n,
                StateView { build_exit_code: Some(end->code), ..over },
                Phase::BuildFailed,
                4,
                "BUILD FAILED (exit code "@ + text::signed_decimal(end->code as int) + ")"@,
            )
            &&& end == ChildEnd::TimedOut ==> ends_with(
                s,
                n,
                over,
                Phase::BuildFailed,
                4,
                "BUILD FAILED (timeout after "@ + text::decimal(
                    (match service.build_timeout_seconds {
                        Some(seconds) => seconds as nat,
                        None => 0,
                    }),
                ) + "s)"@,
            )
            &&& end == ChildEnd::Terminated ==> goes_on(
                s,
                n,
                Stage::BuildCancel,
                over,
                seq![ActionView::CheckStop],
            )
            &&& !n.actions.contains(ActionView::SpawnRun)
        }),
{
    let n = runner::next(service, settings, target, s, Event::Clock { watched_ms }, now);
    let end = s.stage->BuildEnded_end;
    if end is Exited && end->code != 0 {
        assert(n.actions =~= seq![
            ActionView::Marker(
                "BUILD FAILED (exit code "@ + text::signed_decimal(end->code as int) + ")"@,
            ),
            ActionView::Publish,
            ActionView::Exit(4),
        ]);
    } else if end == ChildEnd::TimedOut {
        assert(n.actions =~= seq![
            ActionView::Marker(
                "BUILD FAILED (timeout after "@ + text::decimal(
                    runner::build_seconds(service) as nat,
                ) + "s)"@,
            ),
            ActionView::Publish,
            ActionView::Exit(4),
        ]);
    }
}

/// A build that ends says how: its exit with its code, its timeout, a signal.
/// What is left of its process group is ended before anything else.
pub proof fn law_builds_end_as_they_were_seen_to(
    service: Service,
    settings: Settings,
    target: ProbeTarget,
    s: SessionView,
    outcome: Outcome,
    now: i64,
)
    requires
        s.stage == Stage::BuildWait,
        outcome is Exited || outcome is TimedOut || outcome is Terminated,
    ensures
        ({
            let n = runner::next(service, settings, target, s, Event::Ended { outcome }, now);
            let asked = seq![ActionView::Terminate, ActionView::ReadClock];
            match outcome {
                Outcome::Exited(code) => goes_on(
                    s,
                    n,
                    Stage::BuildEnded { end: ChildEnd::Exited { code } },
                    s.state,
                    asked,
                ),
                Outcome::TimedOut => goes_on(
                    s,
                    n,
                    Stage::BuildEnded { end: ChildEnd::TimedOut },
                    s.state,
                    asked,
                ),
                _ => goes_on(
                    s,
                    n,
                    Stage::BuildEnded { end: ChildEnd::Terminated },
                    s.state,
                    asked,
                ),
            }
        }),
{
}

/// A build that was cancelled ends the session as stopped, and says whether it
/// was asked for.
pub proof fn law_a_cancelled_build_is_stopped(
    service: Service,
    settings: Settings,
    target: ProbeTarget,
    s: SessionView,
    stop: bool,
    now: i64,
)
    requires
        s.stage == Stage::BuildCancel,
    ensures
        ends_with(
            s,
            runner::next(service, settings, target, s, Event::StopRequested(stop), now),
            s.state,
            Phase::Stopped,
            8,
            if stop {
                "STOPPED (build cancelled)"@
            } else {
                "STOPPED (signal received while building)"@
            },
        ),
{
    let n = runner::next(service, settings, target, s, Event::StopRequested(stop), now);
    assert(n.actions =~= seq![
        ActionView::Marker(
            if stop {
                "STOPPED (build cancelled)"@
            } else {
                "STOPPED (signal received while building)"@
            },
        ),
        ActionView::Publish,
        ActionView::Exit(8),
    ]);
}

/// The run begins with fresh logs, whoever holds the probe port: the first such
/// listener is recorded and warned of, and `run-cmd` is spawned all the same.
pub proof fn law_runs_begin_after_the_port_was_looked_at(
    service: Service,
    settings: Settings,
    target: ProbeTarget,
    s: SessionView,
    listeners: Vec<(u32, String)>,
    groups: Vec<Option<i32>>,
    now: i64,
)
    requires
        s.stage == Stage::Preflight,
    ensures
        ({
            let n = runner::next(
                service,
                settings,
                target,
                s,
                Event::Listeners { listeners, groups },
                now,
            );
            let begin = seq![
                ActionView::BeginRun,
                ActionView::Marker("RUNNING"@),
                ActionView::Publish,
                ActionView::SpawnRun,
            ];
            let seen = port::first_owner(target, settings, listeners@);
            &&& n.session.stage == Stage::RunSpawn
            &&& n.session.preflight == seen
            &&& seen is None ==> n.actions == begin && n.session.state == (StateView {
                phase: Phase::Starting,
                run_started_at: Some(now),
                child_kind: Some("run"@),
                ..s.state
            })
            &&& seen is Some ==> {
                &&& n.actions.len() == 5
                &&& n.actions.skip(1) == begin
                &&& n.actions[0] == ActionView::Marker(
                    "WARNING: PORT "@ + text::decimal(runner::port_number(target) as nat)
                        + " ALREADY IN USE BY "@ + port::listener_text(seen->Some_0),
                )
                &&& n.session.state == (StateView {
                    phase: Phase::Starting,
                    run_started_at: Some(now),
                    child_kind: Some("run"@),
                    probe: state::ProbeView {
                        foreign_port_pid: Some(seen->Some_0.pid),
                        ..s.state.probe
                    },
                    ..s.state
                })
            }
        }),
{
    let n = runner::next(
        service,
        settings,
        target,
        s,
        Event::Listeners { listeners, groups },
        now,
    );
    let begin = seq![
        ActionView::BeginRun,
        ActionView::Marker("RUNNING"@),
        ActionView::Publish,
        ActionView::SpawnRun,
    ];
    if port::first_owner(target, settings, listeners@) is Some {
        assert(n.actions.skip(1) =~= begin);
    } else {
        assert(n.actions =~= begin);
    }
}

/// What the first watch over `run-cmd` comes to. A probe that passed is checked
/// against the owner of the port; one that gave up ends the child and then the
/// session, with the code of a failed probe; an exit ends the group; a signal
/// ends the group and asks whether a stop was asked for.
pub proof fn law_the_first_watch_decides_readiness(
    service: Service,
    settings: Settings,
    target: ProbeTarget,
    s: SessionView,
    outcome: Outcome,
    now: i64,
)
    requires
        s.stage == Stage::RunProbe,
        !(outcome is TimedOut),
    ensures
        ({
            let n = runner::next(service, settings, target, s, Event::Ended { outcome }, now);
            match outcome {
                Outcome::Ready { attempts } => goes_on(
                    s,
                    n,
                    Stage::RunVerify { attempts },
                    s.state,
                    seq![ActionView::FindListeners],
                ),
                Outcome::Exited(code) => goes_on(
                    s,
                    n,
                    Stage::RunEnded { code },
                    s.state,
                    seq![ActionView::Terminate, ActionView::ReadClock],
                ),
                Outcome::ProbeFailed { attempts, failures, last_error } => {
                    &&& n.session.stage == (Stage::Done { code: 6 })
                    &&& n.session.preflight == s.preflight
                    &&& n.session.state == (StateView {
                        phase: Phase::ProbeFailed,
                        probe: state::ProbeView {
                            attempts,
                            last_error: Some(last_error@),
                            ..s.state.probe
                        },
                        ..s.state
                    })
                    &&& n.actions == seq![
                        ActionView::Terminate,
                        ActionView::Marker(
                            "PROBE FAILED: "@ + text::decimal(failures as nat)
                                + " consecutive failures, last: "@ + last_error@ + " ("@
                                + crate::config::target_text(target) + ")"@,
                        ),
                        ActionView::Publish,
                        ActionView::Exit(6),
                    ]
                },
                _ => goes_on(
                    s,
                    n,
                    Stage::RunTerminated,
                    s.state,
                    seq![ActionView::Terminate, ActionView::CheckStop],
                ),
            }
        }),
{
    let n = runner::next(service, settings, target, s, Event::Ended { outcome }, now);
    if let Outcome::ProbeFailed { attempts, failures, last_error } = outcome {
        assert(n.actions =~= seq![
            ActionView::Terminate,
            ActionView::Marker(
                "PROBE FAILED: "@ + text::decimal(failures as nat)
                    + " consecutive failures, last: "@ + last_error@ + " ("@
                    + crate::config::target_text(target) + ")"@,
            ),
            ActionView::Publish,
            ActionView::Exit(6),
        ]);
    }
}

/// `run-cmd` that exited before it was ready: its code is recorded, and the
/// session fails with the code of a failed run unless a stop was asked for.
pub proof fn law_an_early_exit_is_recorded_and_judged(
    service: Service,
    settings: Settings,
    target: ProbeTarget,
    s: SessionView,
    watched_ms: i64,
    stop: bool,
    now: i64,
)
    requires
        s.stage is RunEnded || s.stage is RunExit || s.stage == Stage::RunTerminated,
    ensures
        s.stage matches Stage::RunEnded { code } ==> goes_on(
            s,
            runner::next(service, settings, target, s, Event::Clock { watched_ms }, now),
            Stage::RunExit { code },
            StateView { run_exit_code: Some(code), run_finished_at: Some(now), ..s.state },
            seq![ActionView::CheckStop],
        ),
        s.stage matches Stage::RunExit { code } ==> ends_with(
            s,
            runner::next(service, settings, target, s, Event::StopRequested(stop), now),
            s.state,
            if stop {
                Phase::Stopped
            } else {
                Phase::RunFailed
            },
            if stop {
                8
            } else {
                5
            },
            if stop {
                "STOPPED"@
            } else {
                "RUNNING FAILED (exit code "@ + text::signed_decimal(code as int) + ")"@
            },
        ),
        s.stage == Stage::RunTerminated ==> ends_with(
            s,
            runner::next(service, settings, target, s, Event::StopRequested(stop), now),
            s.state,
            Phase::Stopped,
            8,
            if stop {
                "STOPPED"@
            } else {
                "STOPPED (signal received)"@
            },
        ),
{
    let n = runner::next(service, settings, target, s, Event::StopRequested(stop), now);
    if let Stage::RunExit { code } = s.stage {
        if stop {
            assert(n.actions =~= seq![
                ActionView::Marker("STOPPED"@),
                ActionView::Publish,
                ActionView::Exit(8),
            ]);
        } else {
            assert(n.actions =~= seq![
                ActionView::Marker(
                    "RUNNING FAILED (exit code "@ + text::signed_decimal(code as int) + ")"@,
                ),
                ActionView::Publish,
                ActionView::Exit(5),
            ]);
        }
    }
    if s.stage == Stage::RunTerminated {
        assert(n.actions =~= seq![
            ActionView::Marker(
                if stop {
                    "STOPPED"@
                } else {
                    "STOPPED (signal received)"@
                },
            ),
            ActionView::Publish,
            ActionView::Exit(8),
        ]);
    }
}

/// A probe that passed makes the service ready unless the port is confirmed to
/// be someone else's, in which case the child is stopped and the session fails
/// with the code of a failed probe. Readiness is recorded with its time, its kind
/// and the attempts it took; an unexpected owner is warned of.
pub proof fn law_the_owner_of_the_port_decides(
    service: Service,
    settings: Settings,
    target: ProbeTarget,
    s: SessionView,
    listeners: Vec<(u32, String)>,
    groups: Vec<Option<i32>>,
    pgid: i32,
    now: i64,
)
    requires
        s.stage is RunVerify,
        s.state.child_pgid == Some(pgid),
    ensures
        ({
            let n = runner::next(
                service,
                settings,
                target,
                s,
                Event::Listeners { listeners, groups },
                now,
            );
            let attempts = s.stage->attempts;
            let port = text::decimal(runner::port_number(target) as nat);
            let ready = StateView {
                phase: Phase::Running,
                ready_at: Some(now),
                ready_via: Some(crate::config::target_kind(target)),
                probe: state::ProbeView { attempts, ..s.state.probe },
                ..s.state
            };
            let told = seq![
                ActionView::Marker(
                    if target == ProbeTarget::NoProbe {
                        "PROBE PASSED (NO PROBE CONFIGURED)"@
                    } else {
                        "PROBE PASSED (attempt "@ + text::decimal(attempts as nat) + ")"@
                    },
                ),
                ActionView::Publish,
                ActionView::EndNarrative,
                ActionView::WatchReady,
            ];
            match port::owner(target, settings, pgid, s.preflight, listeners@, groups@) {
                Ownership::ConfirmedForeign(l) => {
                    let reason = "port "@ + port + " is owned by "@ + port::listener_text(l)
                        + ", not by service \""@ + service.name@ + "\""@;
                    &&& n.session.stage == (Stage::Done { code: 6 })
                    &&& n.session.preflight == s.preflight
                    &&& n.session.state == (StateView {
                        phase: Phase::ProbeFailed,
                        probe: state::ProbeView {
                            attempts,
                            last_error: Some(reason),
                            ..s.state.probe
                        },
                        ..s.state
                    })
                    &&& n.actions == seq![
                        ActionView::Terminate,
                        ActionView::Marker("PROBE FAILED: "@ + reason),
                        ActionView::Publish,
                        ActionView::Exit(6),
                    ]
                },
                Ownership::Unexpected(l) => {
                    &&& goes_on(s, n, Stage::ReadyWait, ready, n.actions)
                    &&& n.actions.len() == 5
                    &&& n.actions[0] == ActionView::Marker(
                        "WARNING: PORT "@ + port + " IS HELD BY "@ + port::listener_text(l)
                            + " (not part of this service); the probe result may be misleading"@,
                    )
                    &&& n.actions.skip(1) == told
                },
                _ => goes_on(s, n, Stage::ReadyWait, ready, told),
            }
        }),
{
    let n = runner::next(
        service,
        settings,
        target,
        s,
        Event::Listeners { listeners, groups },
        now,
    );
    let attempts = s.stage->attempts;
    let told = seq![
        ActionView::Marker(
            if target == ProbeTarget::NoProbe {
                "PROBE PASSED (NO PROBE CONFIGURED)"@
            } else {
                "PROBE PASSED (attempt "@ + text::decimal(attempts as nat) + ")"@
            },
        ),
        ActionView::Publish,
        ActionView::EndNarrative,
        ActionView::WatchReady,
    ];
    match port::owner(target, settings, pgid, s.preflight, listeners@, groups@) {
        Ownership::ConfirmedForeign(l) => {
            let reason = runner::foreign_reason(service, target, l);
            assert(n.actions =~= seq![
                ActionView::Terminate,
                ActionView::Marker("PROBE FAILED: "@ + reason),
                ActionView::Publish,
                ActionView::Exit(6),
            ]);
        },
        Ownership::Unexpected(l) => {
            assert(n.actions.skip(1) =~= told);
        },
        _ => {
            assert(n.actions =~= told);
        },
    }
}

/// A ready service that ends: what is left of its group is ended, its exit code
/// is recorded where it has one, and the session ends as stopped when that was
/// asked for and as exited when not, with the codes of the two. Its console
/// stream goes with it.
pub proof fn law_a_ready_service_ends_as_stopped_or_exited(
    service: Service,
    settings: Settings,
    target: ProbeTarget,
    s: SessionView,
    outcome: Outcome,
    watched_ms: i64,
    stop: bool,
    now: i64,
)
    requires
        s.stage == Stage::ReadyWait || s.stage is ReadyEnded || s.stage is ReadyExit
            || s.stage is ReadyTerminated,
        outcome is Exited || outcome is Terminated,
        s.stage matches Stage::ReadyEnded { end } ==> end != ChildEnd::TimedOut,
    ensures
        ({
            let n = runner::next(service, settings, target, s, Event::Ended { outcome }, now);
            s.stage == Stage::ReadyWait ==> goes_on(
                s,
                n,
                Stage::ReadyEnded {
                    end: match outcome {
                        Outcome::Exited(code) => ChildEnd::Exited { code },
                        _ => ChildEnd::Terminated,
                    },
                },
                s.state,
                seq![ActionView::Terminate, ActionView::ReadClock],
            )
        }),
        ({
            let n = runner::next(service, settings, target, s, Event::Clock { watched_ms }, now);
            let over = StateView { run_finished_at: Some(now), ..s.state };
            s.stage matches Stage::ReadyEnded { end } ==> match end {
                ChildEnd::Exited { code } => goes_on(
                    s,
                    n,
                    Stage::ReadyExit { code, ready_ms: watched_ms },
                    StateView { run_exit_code: Some(code), ..over },
                    seq![ActionView::CheckStop],
                ),
                _ => goes_on(
                    s,
                    n,
                    Stage::ReadyTerminated { ready_ms: watched_ms },
                    over,
                    seq![ActionView::CheckStop],
                ),
            }
        }),
        ({
            let n = runner::next(service, settings, target, s, Event::StopRequested(stop), now);
            s.stage is ReadyExit || s.stage is ReadyTerminated ==> {
                &&& n.session.preflight == s.preflight
                &&& n.session.state == (StateView { phase: n.session.state.phase, ..s.state })
                &&& stop ==> {
                    &&& n.session.stage == (Stage::Done { code: 8 })
                    &&& n.session.state.phase == Phase::Stopped
                    &&& n.actions == seq![
                        ActionView::Marker("STOPPED"@),
                        ActionView::Publish,
                        ActionView::RemoveConsole,
                        ActionView::Exit(8),
                    ]
                }
                &&& !stop ==> {
                    &&& n.session.stage == (Stage::Done { code: 5 })
                    &&& n.session.state.phase == Phase::Exited
                    &&& n.actions == seq![
                        ActionView::Marker(
                            match s.stage {
                                Stage::ReadyExit { code, ready_ms } => "SERVICE EXITED (exit code "@
                                    + text::signed_decimal(code as int) + ", ready for "@
                                    + util::duration(ready_ms as int) + ")"@,
                                Stage::ReadyTerminated { ready_ms } =>
                                "SERVICE EXITED (terminated, ready for "@ + util::duration(
                                    ready_ms as int,
                                ) + ")"@,
                                _ => Seq::empty(),
                            },
                        ),
                        ActionView::Publish,
                        ActionView::RemoveConsole,
                        ActionView::Exit(5),
                    ]
                }
            }
        }),
{
}

/// The port that a warning names is the port of the target on this machine.
pub proof fn law_warnings_name_the_probed_port(target: ProbeTarget)
    requires
        crate::config::target_port(target) is Some,
    ensures
        match target {
            ProbeTarget::Http { port, .. } => runner::port_number(target) == port,
            ProbeTarget::Tcp { port, .. } => runner::port_number(target) == port,
            ProbeTarget::NoProbe => false,
        },
{
}

/// The record of a session that begins says which service, generation, runner,
/// configuration and probe it is about, what it does first and when it began, and
/// nothing that has not happened yet.
pub proof fn law_sessions_are_opened_with_an_empty_record(
    service: Service,
    target: ProbeTarget,
    generation: u64,
    hash: Seq<char>,
    pid: u32,
    ticks: Option<u64>,
    now: i64,
)
    ensures
        ({
            let r = runner::initial_state(service, target, generation, hash, pid, ticks, now);
            &&& r.schema == 1
            &&& r.service == service.name@
            &&& r.generation == generation
            &&& r.config_hash == hash
            &&& r.runner_pid == pid
            &&& ticks matches Some(t) ==> r.runner_start_ticks == t
            &&& ticks is None ==> r.runner_start_ticks == 0
            &&& r.session_started_at == now && r.updated_at == now
            &&& r.child_kind == Some(
                if service.build_cmd is Some {
                    "build"@
                } else {
                    "run"@
                },
            )
            &&& r.probe.kind == crate::config::target_kind(target)
            &&& r.probe.target == crate::config::target_text(target)
            &&& r.probe.attempts == 0 && r.probe.last_error is None
            &&& r.probe.foreign_port_pid is None
            &&& r.agproc_version == "0.1.0"@
            &&& r.child_pid is None && r.child_pgid is None
            &&& r.session_start_offset.stdout == 0 && r.session_start_offset.stderr == 0
            &&& r.build_started_at is None && r.build_finished_at is None
            &&& r.build_exit_code is None
            &&& r.run_started_at is None && r.run_finished_at is None && r.run_exit_code is None
            &&& r.ready_at is None && r.ready_via is None
        }),
{
}

} // verus!

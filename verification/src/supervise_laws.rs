//! What holds of watching a child, of its probe, of ending it, and of who owns its
//! port.

use vstd::prelude::*;
use vstd::string::*;

use crate::config;
use crate::config::{ProbeTarget, Settings};
use crate::port;
use crate::port::{Listener, Ownership};
use crate::supervise;
use crate::supervise::{
    GroupSignal,
    Outcome,
    ProbeReply,
    ProbeRunner,
    ProbeStep,
    TerminationStage,
    TerminationStep,
    Tick,
    Watch,
    Watched,
};
use crate::text;

verus! {

// ----------------------------------------------------------------- the child
/// An exit on record ends every round. Without one a request to end comes first,
/// then the child's exit, then the clock; a round that saw none of them goes on.
pub proof fn law_rounds_end_by_what_comes_first(code: i32, tick: Tick)
    ensures
        supervise::interrupted(Some(code), tick) == Some(Outcome::Exited(code)),
        tick.terminated ==> supervise::interrupted(None, tick) == Some(Outcome::Terminated),
        !tick.terminated && tick.exited == Some(code) ==> supervise::interrupted(None, tick)
            == Some(Outcome::Exited(code)),
        !tick.terminated && tick.exited is None && tick.timed_out ==> supervise::interrupted(
            None,
            tick,
        ) == Some(Outcome::TimedOut),
        !tick.terminated && tick.exited is None && !tick.timed_out ==> supervise::interrupted(
            None,
            tick,
        ) is None,
{
}

/// A round puts the exit on record that it saw, unless one is on record already or
/// a request to end kept it from looking.
pub proof fn law_rounds_record_the_exit_they_saw(exited: Option<i32>, code: i32, tick: Tick)
    ensures
        supervise::recorded(Some(code), tick) == Some(code),
        tick.terminated ==> supervise::recorded(None, tick) is None,
        !tick.terminated ==> supervise::recorded(None, tick) == tick.exited,
        supervise::recorded_after(exited, Seq::empty()) == exited,
        supervise::recorded_after(exited, seq![tick]) == supervise::recorded(exited, tick),
{
    assert(seq![tick].drop_last() =~= Seq::<Tick>::empty());
    assert(supervise::recorded_after(exited, Seq::empty()) == exited);
}

/// A round in which nothing happened to the child asks the probe, and ends where
/// the probe has settled.
pub proof fn law_quiet_rounds_ask_the_probe(
    before: Watch,
    probe_before: ProbeRunner,
    tick: Tick,
    now: u64,
    after: Watch,
    probe_after: ProbeRunner,
    r: Watched,
)
    requires
        supervise::probed_round(before, probe_before, tick, now, after, probe_after, r),
        before.exited is None,
    ensures
        tick.terminated ==> r.ended == Some(Outcome::Terminated) && probe_after == probe_before
            && after.exited is None,
        !tick.terminated && tick.exited is None && tick.timed_out ==> r.ended == Some(
            Outcome::TimedOut,
        ) && probe_after == probe_before,
        tick.terminated || tick.exited is Some || tick.timed_out ==> r.marker is None && !r.launch,
        !tick.terminated && tick.exited is None && !tick.timed_out ==> {
            &&& after.exited is None
            &&& probe_before.pending && tick.reply is Passed ==> r.ended == Some(
                Outcome::Ready { attempts: (probe_before.attempts + 1) as u32 },
            )
            &&& !probe_before.pending || tick.reply is Pending || tick.reply is Lost
                ==> r.ended is None && r.marker is None
            &&& r.launch <==> !probe_before.pending && now >= probe_before.next_at
        },
{
}

// ----------------------------------------------------------------- the probe
/// A probe passes with the first attempt that passes, and counts it.
pub proof fn law_a_passing_attempt_is_ready(
    before: ProbeRunner,
    now: u64,
    after: ProbeRunner,
    r: ProbeStep,
)
    requires
        before.wf(),
        before.pending,
        supervise::probe_round(before, ProbeReply::Passed, now, after, r),
    ensures
        r.settled matches Some(Outcome::Ready { attempts }) && attempts == before.attempts + 1,
        r.marker is None,
        !r.launch,
        !after.pending,
        after.attempts == before.attempts + 1,
        after.failures == before.failures,
{
}

/// A failed attempt is told with its number, the threshold, its reason and what was
/// probed. The next one begins a whole period later, or there is none when as many
/// have failed as the threshold says.
pub proof fn law_a_failed_attempt_is_told(
    before: ProbeRunner,
    reason: String,
    now: u64,
    after: ProbeRunner,
    r: ProbeStep,
)
    requires
        before.wf(),
        before.pending,
        supervise::probe_round(before, ProbeReply::Failed(reason), now, after, r),
    ensures
        r.marker matches Some(line) && line@ == "PROBE ATTEMPT "@ + text::decimal(
            (before.attempts + 1) as nat,
        ) + "/"@ + text::decimal(before.threshold as nat) + " FAILED: "@ + reason@ + " ("@
            + config::target_text(before.target) + ")"@,
        !r.launch,
        !after.pending,
        after.attempts == before.attempts + 1,
        after.failures == before.failures + 1,
        after.target == before.target && after.threshold == before.threshold
            && after.period_seconds == before.period_seconds && after.timeout_seconds
            == before.timeout_seconds,
        before.failures + 1 < before.threshold ==> r.settled is None && after.next_at == now + 1000
            * before.period_seconds,
        before.failures + 1 == before.threshold ==> r.settled == Some(
            Outcome::ProbeFailed {
                attempts: before.threshold,
                failures: before.threshold,
                last_error: reason,
            },
        ),
{
    let wait = now + 1000 * before.period_seconds;
    assert(1000 * before.period_seconds <= 1000 * 0xffff_ffff_ffff_ffff);
    assert(wait as u128 == wait);
}

/// An attempt without an answer changes nothing; one that went away without an
/// answer does not count, and another begins in its place.
pub proof fn law_attempts_without_an_answer_do_not_count(
    before: ProbeRunner,
    reply: ProbeReply,
    now: u64,
    after: ProbeRunner,
    r: ProbeStep,
)
    requires
        supervise::probe_round(before, reply, now, after, r),
        !before.pending || reply is Pending || reply is Lost,
    ensures
        r.settled is None,
        r.marker is None,
        after.attempts == before.attempts,
        after.failures == before.failures,
        after.next_at == before.next_at,
        after.pending <==> (if before.pending {
            reply is Pending
        } else {
            now >= before.next_at
        }),
        r.launch <==> !before.pending && now >= before.next_at,
{
}

/// Numbers that must not be zero are taken as one, and any other as it is.
pub proof fn law_zero_counts_as_one(n: nat)
    ensures
        supervise::at_least_one(0) == 1,
        n > 0 ==> supervise::at_least_one(n as int) == n,
{
}

// ----------------------------------------------------------------- the group
/// A group is asked to end first, and given the whole grace period from then on.
pub proof fn law_groups_are_asked_first(grace_ms: u128, exists_now: bool, now: u64)
    requires
        grace_ms <= 1000 * 0xffff_ffff_ffff_ffff,
    ensures
        ({
            let (next, step) = supervise::termination_next(
                TerminationStage::Begin { grace_ms },
                exists_now,
                now,
            );
            &&& step == TerminationStep::Signal(GroupSignal::Term)
            &&& next matches TerminationStage::Asked { deadline } && deadline == now + grace_ms
        }),
{
    assert((now + grace_ms) as u128 == now + grace_ms);
}

/// A group that was asked is done with once it is gone. One that is still there is
/// looked at again every 50 milliseconds, and killed at the deadline.
pub proof fn law_asked_groups_have_until_the_deadline(
    deadline: u128,
    exists_now: bool,
    now: u64,
)
    ensures
        ({
            let stage = TerminationStage::Asked { deadline };
            let (next, step) = supervise::termination_next(stage, exists_now, now);
            &&& !exists_now ==> next == TerminationStage::Finished && step
                == TerminationStep::Finished
            &&& exists_now && now < deadline ==> next == stage && step == TerminationStep::Wait(50)
            &&& exists_now && now >= deadline ==> step == TerminationStep::Signal(
                GroupSignal::Kill,
            ) && (next matches TerminationStage::Forced { deadline: last } && last == now + 2000)
        }),
{
    assert((now + 2000) as u128 == now + 2000);
}

/// A group that was killed is looked at again every 20 milliseconds until it is
/// gone or its time is up; after that nothing more is done about it.
pub proof fn law_killed_groups_are_waited_for(deadline: u128, exists_now: bool, now: u64)
    ensures
        ({
            let stage = TerminationStage::Forced { deadline };
            let (next, step) = supervise::termination_next(stage, exists_now, now);
            &&& exists_now && now < deadline ==> next == stage && step == TerminationStep::Wait(20)
            &&& !exists_now || now >= deadline ==> next == TerminationStage::Finished && step
                == TerminationStep::Finished
        }),
        supervise::termination_next(TerminationStage::Finished, exists_now, now) == (
            TerminationStage::Finished,
            TerminationStep::Finished,
        ),
{
}

/// A child that is gone has been drained once it was quiet for 200 milliseconds,
/// and is read every 20 until then.
pub proof fn law_drains_wait_for_quiet()
    ensures
        supervise::QUIET_MS == 200,
        supervise::DRAIN_PAUSE_MS == 20,
        supervise::KILL_WAIT_MS == 2000,
{
}

// ------------------------------------------------------------------ the port
/// Before the service is started its port is taken to be held by the first that
/// listens on it, unless the check is off or the port is not on this machine.
pub proof fn law_the_first_listener_holds_the_port(
    target: ProbeTarget,
    settings: Settings,
    listeners: Seq<(u32, String)>,
)
    ensures
        ({
            let found = port::first_owner(target, settings, listeners);
            &&& found is Some <==> settings.port_check && config::target_port(target) is Some
                && listeners.len() > 0
            &&& found matches Some(l) ==> l.pid == listeners[0].0 && l.comm == listeners[0].1
        }),
{
}

/// A port that one of the service's own processes listens on is its own, whoever
/// listens beside it.
pub proof fn law_a_port_of_the_group_is_ours(
    target: ProbeTarget,
    settings: Settings,
    child_pgid: i32,
    preflight: Option<Listener>,
    listeners: Seq<(u32, String)>,
    groups: Seq<Option<i32>>,
    i: int,
)
    requires
        settings.port_check,
        config::target_port(target) is Some,
        listeners.len() > 0,
    ensures
        0 <= i < groups.len() && groups[i] == Some(child_pgid) ==> port::owner(
            target,
            settings,
            child_pgid,
            preflight,
            listeners,
            groups,
        ) == Ownership::Ours,
        port::owner(target, settings, child_pgid, preflight, listeners, groups) == Ownership::Ours
            ==> exists|k: int| 0 <= k < groups.len() && #[trigger] groups[k] == Some(child_pgid),
{
    if 0 <= i < groups.len() && groups[i] == Some(child_pgid) {
        assert(groups.contains(Some(child_pgid)));
    }
}

/// A listener that was there before is named as it is now. One that was not is
/// unexpected, and the first of them is named. Where nobody listens, or the check
/// is off, nothing is known.
pub proof fn law_others_are_named_as_they_listen(
    target: ProbeTarget,
    settings: Settings,
    child_pgid: i32,
    preflight: Option<Listener>,
    listeners: Seq<(u32, String)>,
    groups: Seq<Option<i32>>,
)
    ensures
        match port::owner(target, settings, child_pgid, preflight, listeners, groups) {
            Ownership::Ours => groups.contains(Some(child_pgid)),
            Ownership::ConfirmedForeign(l) => preflight matches Some(before) && l.pid == before.pid
                && exists|i: int|
                0 <= i < listeners.len() && l.pid == (#[trigger] listeners[i]).0 && l.comm
                    == listeners[i].1,
            Ownership::Unexpected(l) => listeners.len() > 0 && l.pid == listeners[0].0 && l.comm
                == listeners[0].1 && !groups.contains(Some(child_pgid)) && (
            preflight matches Some(before) ==> forall|i: int|
                0 <= i < listeners.len() ==> (#[trigger] listeners[i]).0 != before.pid),
            Ownership::Unknown => !settings.port_check || config::target_port(target) is None
                || listeners.len() == 0,
        },
{
    if let Some(before) = preflight {
        lemma_same_pid_is_listening(listeners, before.pid);
    }
}

proof fn lemma_same_pid_is_listening(listeners: Seq<(u32, String)>, pid: u32)
    ensures
        match port::same_pid(listeners, pid) {
            Some(l) => l.pid == pid && exists|i: int|
                0 <= i < listeners.len() && l.pid == (#[trigger] listeners[i]).0 && l.comm
                    == listeners[i].1,
            None => forall|i: int|
                0 <= i < listeners.len() ==> (#[trigger] listeners[i]).0 != pid,
        },
    decreases listeners.len(),
{
    if listeners.len() > 0 {
        let rest = listeners.skip(1);
        lemma_same_pid_is_listening(rest, pid);
        if listeners[0].0 != pid {
            match port::same_pid(rest, pid) {
                Some(l) => {
                    let i = choose|i: int|
                        0 <= i < rest.len() && l.pid == (#[trigger] rest[i]).0 && l.comm
                            == rest[i].1;
                    assert(listeners[i + 1] == rest[i]);
                },
                None => {
                    assert forall|i: int| 0 <= i < listeners.len() implies (
                    #[trigger] listeners[i]).0 != pid by {
                        if i > 0 {
                            assert(rest[i - 1] == listeners[i]);
                        }
                    }
                },
            }
        }
    }
}

/// A listener is told by its process and the command it runs, if that is known.
pub proof fn law_listeners_are_told_by_process(l: Listener)
    ensures
        l.comm@.len() > 0 ==> port::listener_text(l) == "pid "@ + text::decimal(l.pid as nat)
            + " ("@ + l.comm@ + ")"@,
        l.comm@.len() == 0 ==> port::listener_text(l) == "pid "@ + text::decimal(l.pid as nat)
            + " ("@ + "unknown"@ + ")"@,
        port::held(Some(&l)) == Some(l),
        port::held(None) is None,
{
}

} // verus!

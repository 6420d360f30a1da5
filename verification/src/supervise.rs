//! Watching one child: its exit, the deadline, a request to end, and the probe.
//!
//! A child's exit always wins over a probe result that arrived a moment earlier,
//! so a probe can never report a service that is already dead.

use vstd::prelude::*;
use vstd::string::*;

use crate::config;
use crate::config::{ProbeTarget, Service};
use crate::text;

verus! {

/// What a supervised phase ended with.
#[derive(Debug, Clone, PartialEq, Eq)]
pub enum Outcome {
    Exited(i32),
    Ready { attempts: u32 },
    ProbeFailed { attempts: u32, failures: u32, last_error: String },
    Terminated,
    TimedOut,
}

/// What became of the attempt under way.
pub enum ProbeReply {
    /// It has not answered yet.
    Pending,
    /// It went away without an answer.
    Lost,
    Passed,
    Failed(String),
}

/// Drives probe attempts without blocking log forwarding: each attempt runs on
/// its own and is collected on a later round. Times are milliseconds of one
/// monotonic clock.
pub struct ProbeRunner {
    pub target: ProbeTarget,
    pub timeout_seconds: u64,
    pub period_seconds: u64,
    pub threshold: u32,
    pub next_at: u128,
    pub pending: bool,
    pub attempts: u32,
    pub failures: u32,
}

/// What a round of probing comes to.
pub struct ProbeStep {
    /// A line for the console.
    pub marker: Option<String>,
    /// Begin another attempt.
    pub launch: bool,
    /// The probe has settled.
    pub settled: Option<Outcome>,
}

/// A number, at least one.
pub open spec fn at_least_one(n: int) -> int {
    if n < 1 {
        1
    } else {
        n
    }
}

/// The line for a failed attempt.
pub open spec fn attempt_marker(
    attempt: u32,
    threshold: u32,
    reason: Seq<char>,
    target: ProbeTarget,
) -> Seq<char> {
    "PROBE ATTEMPT "@ + text::decimal(attempt as nat) + "/"@ + text::decimal(threshold as nat)
        + " FAILED: "@ + reason + " ("@ + config::target_text(target) + ")"@
}

impl ProbeRunner {
    /// Every attempt so far has failed, and the threshold is not reached.
    pub open spec fn wf(&self) -> bool {
        self.attempts == self.failures && self.failures < self.threshold
    }

    pub fn new(service: &Service, target: &ProbeTarget, now: u64) -> (out: ProbeRunner)
        ensures
            out.wf(),
            out.target == *target,
            out.attempts == 0,
            !out.pending,
            match service.probe {
                Some(probe) => {
                    &&& out.timeout_seconds == at_least_one(probe.timeout_seconds as int)
                    &&& out.period_seconds == at_least_one(probe.period_seconds as int)
                    &&& out.threshold == at_least_one(probe.failure_threshold as int)
                    &&& out.next_at == now + 1000 * probe.initial_delay_seconds
                },
                None => {
                    &&& out.timeout_seconds == 2
                    &&& out.period_seconds == 1
                    &&& out.threshold == 1
                    &&& out.next_at == now + 1000
                },
            },
    {
        let (timeout, period, threshold, delay): (u64, u64, u32, u64) = match &service.probe {
            Some(probe) => (
                probe.timeout_seconds,
                probe.period_seconds,
                probe.failure_threshold,
                probe.initial_delay_seconds,
            ),
            None => (2, 1, 1, 1),
        };
        ProbeRunner {
            target: target.copy(),
            timeout_seconds: if timeout < 1 {
                1
            } else {
                timeout
            },
            period_seconds: if period < 1 {
                1
            } else {
                period
            },
            threshold: if threshold < 1 {
                1
            } else {
                threshold
            },
            next_at: now as u128 + 1000 * (delay as u128),
            pending: false,
            attempts: 0,
            failures: 0,
        }
    }

    /// One round: collect the attempt under way, or begin one when it is time.
    pub fn step(&mut self, reply: ProbeReply, now: u64) -> (r: ProbeStep)
        requires
            old(self).wf(),
        ensures
            probe_round(*old(self), reply, now, *final(self), r),
            r.settled is None ==> final(self).wf(),
    {
        if self.pending {
            return match reply {
                ProbeReply::Passed => {
                    self.pending = false;
                    self.attempts = self.attempts + 1;
                    ProbeStep {
                        marker: None,
                        launch: false,
                        settled: Some(Outcome::Ready { attempts: self.attempts }),
                    }
                },
                ProbeReply::Failed(reason) => {
                    self.pending = false;
                    self.attempts = self.attempts + 1;
                    self.failures = self.failures + 1;
                    let mut line = "PROBE ATTEMPT ".to_string();
                    text::push_u64(&mut line, self.attempts as u64);
                    line.append("/");
                    text::push_u64(&mut line, self.threshold as u64);
                    line.append(" FAILED: ");
                    line.append(reason.as_str());
                    line.append(" (");
                    line.append(self.target.describe().as_str());
                    line.append(")");
                    if self.failures >= self.threshold {
                        ProbeStep {
                            marker: Some(line),
                            launch: false,
                            settled: Some(
                                Outcome::ProbeFailed {
                                    attempts: self.attempts,
                                    failures: self.failures,
                                    last_error: reason,
                                },
                            ),
                        }
                    } else {
                        self.next_at = now as u128 + 1000 * (self.period_seconds as u128);
                        ProbeStep { marker: Some(line), launch: false, settled: None }
                    }
                },
                ProbeReply::Pending => ProbeStep { marker: None, launch: false, settled: None },
                ProbeReply::Lost => {
                    self.pending = false;
                    ProbeStep { marker: None, launch: false, settled: None }
                },
            };
        }
        if now as u128 >= self.next_at {
            self.pending = true;
            return ProbeStep { marker: None, launch: true, settled: None };
        }
        ProbeStep { marker: None, launch: false, settled: None }
    }
}

/// No line, no new attempt, nothing settled.
pub open spec fn quiet(r: ProbeStep) -> bool {
    r.marker is None && !r.launch && r.settled is None
}

/// What one round of probing does: from `before` to `after`, with `r`.
pub open spec fn probe_round(
    before: ProbeRunner,
    reply: ProbeReply,
    now: u64,
    after: ProbeRunner,
    r: ProbeStep,
) -> bool {
    if !before.pending {
        if now >= before.next_at {
            &&& after == (ProbeRunner { pending: true, ..before })
            &&& r.marker is None && r.launch && r.settled is None
        } else {
            after == before && quiet(r)
        }
    } else {
        match reply {
            ProbeReply::Pending => after == before && quiet(r),
            ProbeReply::Lost => after == (ProbeRunner { pending: false, ..before }) && quiet(r),
            ProbeReply::Passed => {
                let attempts = (before.attempts + 1) as u32;
                &&& after == (ProbeRunner { pending: false, attempts, ..before })
                &&& r.marker is None && !r.launch
                &&& r.settled == Some(Outcome::Ready { attempts })
            },
            ProbeReply::Failed(reason) => {
                let attempts = (before.attempts + 1) as u32;
                let failures = (before.failures + 1) as u32;
                &&& !r.launch
                &&& r.marker matches Some(line) && line@ == attempt_marker(
                    attempts,
                    before.threshold,
                    reason@,
                    before.target,
                )
                &&& if failures >= before.threshold {
                    &&& after == (ProbeRunner { pending: false, attempts, failures, ..before })
                    &&& r.settled == Some(
                        Outcome::ProbeFailed { attempts, failures, last_error: reason },
                    )
                } else {
                    &&& after == (ProbeRunner {
                        pending: false,
                        attempts,
                        failures,
                        next_at: (now + 1000 * before.period_seconds) as u128,
                        ..before
                    })
                    &&& r.settled is None
                }
            },
        }
    }
}

// ----------------------------------------------------------------- supervise
/// What a round of watching a child saw.
pub struct Tick {
    /// The runner was asked to end.
    pub terminated: bool,
    /// The child's exit code, once it is gone.
    pub exited: Option<i32>,
    /// The phase ran out of time.
    pub timed_out: bool,
    /// What became of the probe attempt under way.
    pub reply: ProbeReply,
}

/// What a round of watching comes to: the end of the phase, or what to do before
/// the next round.
pub struct Watched {
    pub ended: Option<Outcome>,
    pub marker: Option<String>,
    pub launch: bool,
}

/// The watch over one child. It outlasts the phases: the exit code that one wait
/// has recorded is the answer of every later one.
pub struct Watch {
    pub exited: Option<i32>,
}

/// How a round ends a phase without regard to the probe, when `exited` was
/// recorded before it.
pub open spec fn interrupted(exited: Option<i32>, tick: Tick) -> Option<Outcome> {
    match exited {
        Some(code) => Some(Outcome::Exited(code)),
        None => if tick.terminated {
            Some(Outcome::Terminated)
        } else {
            match tick.exited {
                Some(code) => Some(Outcome::Exited(code)),
                None => if tick.timed_out {
                    Some(Outcome::TimedOut)
                } else {
                    None
                },
            }
        },
    }
}

/// The exit code on record after a round. A round that a signal ends does not
/// look at the child.
pub open spec fn recorded(exited: Option<i32>, tick: Tick) -> Option<i32> {
    match exited {
        Some(code) => Some(code),
        None => if tick.terminated {
            None
        } else {
            tick.exited
        },
    }
}

/// The exit code on record after many rounds.
pub open spec fn recorded_after(exited: Option<i32>, ticks: Seq<Tick>) -> Option<i32>
    decreases ticks.len(),
{
    if ticks.len() == 0 {
        exited
    } else {
        recorded(recorded_after(exited, ticks.drop_last()), ticks.last())
    }
}

/// Is `r` what a round of watching and probing comes to, and are `after` and
/// `probe_after` what it leaves?
pub open spec fn probed_round(
    before: Watch,
    probe_before: ProbeRunner,
    tick: Tick,
    now: u64,
    after: Watch,
    probe_after: ProbeRunner,
    r: Watched,
) -> bool {
    &&& after.exited == recorded(before.exited, tick)
    &&& match interrupted(before.exited, tick) {
        Some(outcome) => r.ended == Some(outcome) && r.marker is None && !r.launch && probe_after
            == probe_before,
        None => probe_round(
            probe_before,
            tick.reply,
            now,
            probe_after,
            (ProbeStep { marker: r.marker, launch: r.launch, settled: r.ended }),
        ),
    }
}

impl Watch {
    pub fn new() -> (r: Watch)
        ensures
            r.exited is None,
    {
        Watch { exited: None }
    }

    /// What a round saw of the child, apart from the probe: an exit on record
    /// first, then a signal, then an exit, which goes on record, then the clock.
    fn look(&mut self, tick: &Tick) -> (r: Option<Outcome>)
        ensures
            r == interrupted(old(self).exited, *tick),
            final(self).exited == recorded(old(self).exited, *tick),
    {
        if let Some(code) = self.exited {
            return Some(Outcome::Exited(code));
        }
        if tick.terminated {
            return Some(Outcome::Terminated);
        }
        if let Some(code) = tick.exited {
            self.exited = Some(code);
            return Some(Outcome::Exited(code));
        }
        if tick.timed_out {
            Some(Outcome::TimedOut)
        } else {
            None
        }
    }

    /// A round of watching the child without a probe.
    pub fn round(&mut self, tick: Tick) -> (r: Watched)
        ensures
            old(self).exited matches Some(code) ==> r.ended == Some(Outcome::Exited(code)),
            r.ended == interrupted(old(self).exited, tick),
            r.marker is None,
            !r.launch,
            final(self).exited == recorded(old(self).exited, tick),
    {
        let ended = self.look(&tick);
        Watched { ended, marker: None, launch: false }
    }

    /// A round of watching the child and probing it. The probe is only asked
    /// while the child is there and nobody asked the runner to end.
    pub fn round_probed(&mut self, probe: &mut ProbeRunner, tick: Tick, now: u64) -> (r: Watched)
        requires
            old(probe).wf(),
        ensures
            old(self).exited matches Some(code) ==> r.ended == Some(Outcome::Exited(code)),
            probed_round(*old(self), *old(probe), tick, now, *final(self), *final(probe), r),
            r.ended is None ==> final(probe).wf(),
    {
        match self.look(&tick) {
            Some(outcome) => Watched { ended: Some(outcome), marker: None, launch: false },
            None => {
                let step = probe.step(tick.reply, now);
                Watched { ended: step.settled, marker: step.marker, launch: step.launch }
            },
        }
    }
}

/// Has a build run out of time? A timeout of 0 seconds is none.
pub fn build_timed_out(timeout_seconds: u64, elapsed_ms: u64) -> (r: bool)
    ensures
        r == (timeout_seconds > 0 && elapsed_ms >= timeout_seconds * 1000),
{
    timeout_seconds > 0 && elapsed_ms as u128 >= timeout_seconds as u128 * 1000
}

// --------------------------------------------------------------------- drain
/// How long a child that is gone must have been quiet before its output is taken
/// to be complete.
pub const QUIET_MS: u64 = 200;

/// The pause between two reads of a child that is gone.
pub const DRAIN_PAUSE_MS: u64 = 20;

/// Reading the last words of a child. Times are milliseconds of one monotonic
/// clock.
pub struct Drain {
    /// When output last arrived, or the draining began.
    pub last_data: u64,
}

impl Drain {
    pub fn new(now: u64) -> (r: Drain)
        ensures
            r.last_data == now,
    {
        Drain { last_data: now }
    }

    /// Output has arrived.
    pub fn heard(&mut self, now: u64)
        ensures
            final(self).last_data == now,
    {
        self.last_data = now;
    }

    /// Is there more to wait for?
    pub fn goes_on(&self, now: u64) -> (r: bool)
        ensures
            r == (now - self.last_data < QUIET_MS),
    {
        now < self.last_data || now - self.last_data < QUIET_MS
    }
}

// ----------------------------------------------------------------- terminate
/// A signal to a process group.
#[derive(Debug, Clone, Copy, PartialEq, Eq, Structural)]
pub enum GroupSignal {
    Term,
    Kill,
}

/// Ending a process group: SIGTERM first, SIGKILL when the grace period passes
/// and something is left. Times are milliseconds of one monotonic clock.
pub struct Termination {
    pub stage: TerminationStage,
}

#[derive(Debug, Clone, Copy, PartialEq, Eq, Structural)]
pub enum TerminationStage {
    /// Nothing was sent yet; the grace period in milliseconds.
    Begin { grace_ms: u128 },
    /// SIGTERM was sent; wait until the deadline.
    Asked { deadline: u128 },
    /// SIGKILL was sent; wait until the deadline.
    Forced { deadline: u128 },
    Finished,
}

/// What to do next about a process group.
#[derive(Debug, Clone, Copy, PartialEq, Eq, Structural)]
pub enum TerminationStep {
    Signal(GroupSignal),
    /// Look again after so many milliseconds.
    Wait(u64),
    Finished,
}

/// How long a group that was killed is waited for.
pub const KILL_WAIT_MS: u64 = 2000;

/// The next stage and what to do.
pub open spec fn termination_next(stage: TerminationStage, exists_now: bool, now: u64) -> (
    TerminationStage,
    TerminationStep,
) {
    match stage {
        TerminationStage::Begin { grace_ms } => (
            TerminationStage::Asked { deadline: (now + grace_ms) as u128 },
            TerminationStep::Signal(GroupSignal::Term),
        ),
        TerminationStage::Asked { deadline } => if !exists_now {
            (TerminationStage::Finished, TerminationStep::Finished)
        } else if now < deadline {
            (stage, TerminationStep::Wait(50))
        } else {
            (
                TerminationStage::Forced { deadline: (now + KILL_WAIT_MS) as u128 },
                TerminationStep::Signal(GroupSignal::Kill),
            )
        },
        TerminationStage::Forced { deadline } => if exists_now && now < deadline {
            (stage, TerminationStep::Wait(20))
        } else {
            (TerminationStage::Finished, TerminationStep::Finished)
        },
        TerminationStage::Finished => (TerminationStage::Finished, TerminationStep::Finished),
    }
}

impl Termination {
    /// Can the deadline be told?
    pub open spec fn wf(&self) -> bool {
        self.stage matches TerminationStage::Begin { grace_ms } ==> grace_ms <= 1000 * u64::MAX
    }

    pub fn new(grace_seconds: u64) -> (out: Termination)
        ensures
            out.wf(),
            out.stage == (TerminationStage::Begin { grace_ms: (1000 * grace_seconds) as u128 }),
    {
        Termination { stage: TerminationStage::Begin { grace_ms: 1000 * (grace_seconds as u128) } }
    }

    /// SIGTERM the whole group, escalate to SIGKILL after the grace period.
    /// `exists_now` says whether the group has a process left.
    pub fn step(&mut self, exists_now: bool, now: u64) -> (r: TerminationStep)
        requires
            old(self).wf(),
        ensures
            final(self).wf(),
            (final(self).stage, r) == termination_next(old(self).stage, exists_now, now),
    {
        match self.stage {
            TerminationStage::Begin { grace_ms } => {
                self.stage = TerminationStage::Asked { deadline: now as u128 + grace_ms };
                TerminationStep::Signal(GroupSignal::Term)
            },
            TerminationStage::Asked { deadline } => if !exists_now {
                self.stage = TerminationStage::Finished;
                TerminationStep::Finished
            } else if (now as u128) < deadline {
                TerminationStep::Wait(50)
            } else {
                self.stage = TerminationStage::Forced {
                    deadline: now as u128 + KILL_WAIT_MS as u128,
                };
                TerminationStep::Signal(GroupSignal::Kill)
            },
            TerminationStage::Forced { deadline } => if exists_now && (now as u128) < deadline {
                TerminationStep::Wait(20)
            } else {
                self.stage = TerminationStage::Finished;
                TerminationStep::Finished
            },
            TerminationStage::Finished => TerminationStep::Finished,
        }
    }
}

// ---------------------------------------------------------------------- laws
/// A child that is gone is never reported ready, failed by its probe or late,
/// whatever else a round saw: the round ends with the child's exit, which is then
/// on record.
pub proof fn law_exit_outranks_the_probe(
    before: Watch,
    probe_before: ProbeRunner,
    tick: Tick,
    now: u64,
    after: Watch,
    probe_after: ProbeRunner,
    r: Watched,
    code: i32,
)
    requires
        probed_round(before, probe_before, tick, now, after, probe_after, r),
        before.exited == Some(code) || before.exited is None && tick.exited == Some(code)
            && !tick.terminated,
    ensures
        r.ended == Some(Outcome::Exited(code)),
        after.exited == Some(code),
        probe_after == probe_before,
{
}

/// The exit code that a wait has recorded is the answer of every later wait on
/// that child, whatever the rounds in between and that wait itself saw.
pub proof fn law_a_recorded_exit_stays_the_answer(
    exited: Option<i32>,
    ticks: Seq<Tick>,
    first: int,
    later: int,
    code: i32,
)
    requires
        0 <= first <= later < ticks.len(),
        recorded_after(exited, ticks.take(first)) == Some(code),
    ensures
        recorded_after(exited, ticks.take(later)) == Some(code),
        interrupted(recorded_after(exited, ticks.take(later)), ticks[later]) == Some(
            Outcome::Exited(code),
        ),
    decreases later,
{
    if first < later {
        law_a_recorded_exit_stays_the_answer(exited, ticks, first, later - 1, code);
        assert(ticks.take(later).drop_last() =~= ticks.take(later - 1));
    }
}

/// The round that sees the child gone, unasked to end, puts its exit code on
/// record, so a child is watched with one answer from then on.
pub proof fn law_the_first_exit_seen_is_recorded(ticks: Seq<Tick>, seen: int, code: i32)
    requires
        0 <= seen < ticks.len(),
        ticks[seen].exited == Some(code),
        !ticks[seen].terminated,
        recorded_after(None, ticks.take(seen)) is None,
    ensures
        interrupted(recorded_after(None, ticks.take(seen)), ticks[seen]) == Some(
            Outcome::Exited(code),
        ),
        forall|later: int|
            seen < later < ticks.len() ==> interrupted(
                recorded_after(None, #[trigger] ticks.take(later)),
                ticks[later],
            ) == Some(Outcome::Exited(code)),
{
    assert(ticks.take(seen + 1).drop_last() =~= ticks.take(seen));
    assert forall|later: int| seen < later < ticks.len() implies interrupted(
        recorded_after(None, #[trigger] ticks.take(later)),
        ticks[later],
    ) == Some(Outcome::Exited(code)) by {
        law_a_recorded_exit_stays_the_answer(None, ticks, seen + 1, later, code);
    }
}

/// A probe fails exactly when as many attempts as its threshold have failed, one
/// after the other, and none has passed.
pub proof fn law_probe_fails_at_its_threshold(
    before: ProbeRunner,
    reply: ProbeReply,
    now: u64,
    after: ProbeRunner,
    r: ProbeStep,
)
    requires
        before.wf(),
        probe_round(before, reply, now, after, r),
    ensures
        r.settled is Some && r.settled->Some_0 is ProbeFailed <==> {
            &&& before.pending
            &&& reply is Failed
            &&& before.failures + 1 == before.threshold
        },
        r.settled matches Some(Outcome::ProbeFailed { attempts, failures, .. }) ==> attempts
            == before.threshold && failures == before.threshold,
        r.settled matches Some(Outcome::Ready { attempts }) ==> reply is Passed && 1 <= attempts
            <= before.threshold,
        after.attempts <= before.threshold,
{
}

/// An attempt begins only when none is under way and its time has come.
pub proof fn law_one_attempt_at_a_time(
    before: ProbeRunner,
    reply: ProbeReply,
    now: u64,
    after: ProbeRunner,
    r: ProbeStep,
)
    requires
        probe_round(before, reply, now, after, r),
    ensures
        r.launch <==> !before.pending && now >= before.next_at,
        r.launch ==> after.pending,
{
}

/// A group is killed only after it was asked to end and the grace period has
/// passed with something left in it.
pub proof fn law_kill_only_after_grace(stage: TerminationStage, exists_now: bool, now: u64)
    ensures
        termination_next(stage, exists_now, now).1 == TerminationStep::Signal(GroupSignal::Kill)
            <==> (stage matches TerminationStage::Asked { deadline } && exists_now && now
            >= deadline),
        termination_next(stage, exists_now, now).1 == TerminationStep::Signal(GroupSignal::Term)
            <==> stage is Begin,
{
}

/// Ending a group is over only when the group is gone, or was killed and given
/// its time.
pub proof fn law_termination_ends_with_the_group(
    stage: TerminationStage,
    exists_now: bool,
    now: u64,
)
    ensures
        termination_next(stage, exists_now, now).1 == TerminationStep::Finished && !(
        stage is Finished) && exists_now ==> (stage matches TerminationStage::Forced {
            deadline,
        } && now >= deadline),
        termination_next(stage, exists_now, now).0 is Forced ==> stage is Forced
            || termination_next(stage, exists_now, now).1 == TerminationStep::Signal(
            GroupSignal::Kill,
        ),
{
}

} // verus!

//! Runtime state: one document per service, written atomically by the
//! runner and read by every other command.
//!
//! A record is trusted only while the runner that wrote it is still alive, and
//! only while its `starttime` still matches (which is what makes PID reuse
//! harmless). A record whose runner vanished mid-flight is reported as `stale`.

use vstd::prelude::*;
use vstd::string::*;

use crate::exit;
use crate::paths;
use crate::paths::{FsPath, Project};
use crate::procinfo;
use crate::text;

verus! {

pub const SCHEMA: u32 = 1;

#[derive(Debug, Clone, Copy, PartialEq, Eq, Structural)]
pub enum Phase {
    /// Running `build-cmd`.
    Building,
    /// `run-cmd` is up, the probe has not settled yet.
    Starting,
    /// The probe passed, the service is up.
    Running,
    /// The environment of the commands could not be prepared.
    ConfigFailed,
    /// `build-cmd` exited non-zero (or timed out).
    BuildFailed,
    /// `run-cmd` exited before the probe passed.
    RunFailed,
    /// `run-cmd` exited after having been ready.
    Exited,
    /// The probe hit its failure threshold; the child was stopped.
    ProbeFailed,
    /// Stopped by `agproc stop` (or while building).
    Stopped,
    /// The runner disappeared without recording an outcome (`kill -9`).
    Stale,
}

/// The machine-readable name of a phase.
pub open spec fn phase_name(phase: Phase) -> Seq<char> {
    match phase {
        Phase::Building => "building"@,
        Phase::Starting => "starting"@,
        Phase::Running => "running"@,
        Phase::ConfigFailed => "config-failed"@,
        Phase::BuildFailed => "build-failed"@,
        Phase::RunFailed => "run-failed"@,
        Phase::Exited => "exited"@,
        Phase::ProbeFailed => "probe-failed"@,
        Phase::Stopped => "stopped"@,
        Phase::Stale => "stale"@,
    }
}

/// The wording of a phase for people.
pub open spec fn phase_words(phase: Phase) -> Seq<char> {
    match phase {
        Phase::Building => "building"@,
        Phase::Starting => "starting"@,
        Phase::Running => "running"@,
        Phase::ConfigFailed => "config failed"@,
        Phase::BuildFailed => "build failed"@,
        Phase::RunFailed => "run failed"@,
        Phase::Exited => "running failed"@,
        Phase::ProbeFailed => "probe failed"@,
        Phase::Stopped => "stopped"@,
        Phase::Stale => "stale"@,
    }
}

/// Is a session in this phase still under way?
pub open spec fn in_flight(phase: Phase) -> bool {
    phase == Phase::Building || phase == Phase::Starting || phase == Phase::Running
}

/// Is this phase an outcome for a caller that waits for one?
pub open spec fn is_settled(phase: Phase) -> bool {
    phase != Phase::Building && phase != Phase::Starting
}

/// The exit code of a phase.
pub open spec fn phase_code(phase: Phase) -> i32 {
    match phase {
        Phase::Running => exit::OK,
        Phase::ConfigFailed => exit::CONFIG,
        Phase::BuildFailed => exit::BUILD_FAILED,
        Phase::RunFailed => exit::RUN_FAILED,
        Phase::Exited => exit::RUN_FAILED,
        Phase::Stale => exit::RUN_FAILED,
        Phase::ProbeFailed => exit::PROBE_FAILED,
        Phase::Stopped => exit::SUPERSEDED,
        Phase::Building => exit::GENERIC,
        Phase::Starting => exit::GENERIC,
    }
}

impl Phase {
    /// Canonical machine-readable name (also the `--json` value).
    pub fn as_str(self) -> (r: &'static str)
        ensures
            r@ == phase_name(self),
    {
        match self {
            Phase::Building => "building",
            Phase::Starting => "starting",
            Phase::Running => "running",
            Phase::ConfigFailed => "config-failed",
            Phase::BuildFailed => "build-failed",
            Phase::RunFailed => "run-failed",
            Phase::Exited => "exited",
            Phase::ProbeFailed => "probe-failed",
            Phase::Stopped => "stopped",
            Phase::Stale => "stale",
        }
    }

    /// The phase, downgraded to `Stale` when the runner that recorded it is gone
    /// before it recorded an outcome.
    pub fn effective(self, live: bool) -> (r: Phase)
        ensures
            r == effective(self, live),
    {
        if live {
            self
        } else {
            match self {
                Phase::Building | Phase::Starting | Phase::Running => Phase::Stale,
                other => other,
            }
        }
    }

    /// Human-facing wording.
    pub fn display(self) -> (r: &'static str)
        ensures
            r@ == phase_words(self),
    {
        match self {
            Phase::Building => "building",
            Phase::Starting => "starting",
            Phase::Running => "running",
            Phase::ConfigFailed => "config failed",
            Phase::BuildFailed => "build failed",
            Phase::RunFailed => "run failed",
            Phase::Exited => "running failed",
            Phase::ProbeFailed => "probe failed",
            Phase::Stopped => "stopped",
            Phase::Stale => "stale",
        }
    }

    /// Terminal phase for a `start` caller waiting for an outcome.
    pub fn settled(self) -> (r: bool)
        ensures
            r == is_settled(self),
    {
        match self {
            Phase::Building => false,
            Phase::Starting => false,
            _ => true,
        }
    }

    /// Exit code a waiting `start` should report for this phase.
    pub fn start_exit_code(self) -> (r: i32)
        ensures
            r == phase_code(self),
    {
        match self {
            Phase::Running => exit::OK,
            Phase::ConfigFailed => exit::CONFIG,
            Phase::BuildFailed => exit::BUILD_FAILED,
            Phase::RunFailed | Phase::Exited | Phase::Stale => exit::RUN_FAILED,
            Phase::ProbeFailed => exit::PROBE_FAILED,
            Phase::Stopped => exit::SUPERSEDED,
            Phase::Building | Phase::Starting => exit::GENERIC,
        }
    }
}

#[derive(Debug, Clone, Copy, PartialEq, Eq, Structural)]
pub struct Offsets {
    pub stdout: u64,
    pub stderr: u64,
}

impl Default for Offsets {
    fn default() -> (out: Offsets)
        ensures
            out.stdout == 0,
            out.stderr == 0,
    {
        Offsets { stdout: 0, stderr: 0 }
    }
}

#[derive(Debug, Clone, PartialEq, Eq)]
pub struct ProbeState {
    pub kind: String,
    pub target: String,
    pub attempts: u32,
    pub last_error: Option<String>,
    /// Listener that already owned the port before `run-cmd` started, when any.
    pub foreign_port_pid: Option<u32>,
}

impl Default for ProbeState {
    fn default() -> (out: ProbeState)
        ensures
            out.kind@.len() == 0,
            out.target@.len() == 0,
            out.attempts == 0,
            out.last_error is None,
            out.foreign_port_pid is None,
    {
        ProbeState {
            kind: String::new(),
            target: String::new(),
            attempts: 0,
            last_error: None,
            foreign_port_pid: None,
        }
    }
}

#[derive(Debug, Clone)]
pub struct State {
    pub schema: u32,
    pub service: String,
    pub generation: u64,
    pub phase: Phase,
    pub runner_pid: u32,
    pub runner_start_ticks: u64,
    pub child_pid: Option<u32>,
    pub child_pgid: Option<i32>,
    pub child_kind: Option<String>,
    pub session_started_at: i64,
    pub session_start_offset: Offsets,
    pub build_started_at: Option<i64>,
    pub build_finished_at: Option<i64>,
    pub build_exit_code: Option<i32>,
    pub run_started_at: Option<i64>,
    pub run_finished_at: Option<i64>,
    pub run_exit_code: Option<i32>,
    pub ready_at: Option<i64>,
    pub ready_via: Option<String>,
    pub probe: ProbeState,
    pub config_hash: String,
    pub agproc_version: String,
    pub updated_at: i64,
}

/// A record as plain values.
pub struct StateView {
    pub schema: u32,
    pub service: Seq<char>,
    pub generation: u64,
    pub phase: Phase,
    pub runner_pid: u32,
    pub runner_start_ticks: u64,
    pub child_pid: Option<u32>,
    pub child_pgid: Option<i32>,
    pub child_kind: Option<Seq<char>>,
    pub session_started_at: i64,
    pub session_start_offset: Offsets,
    pub build_started_at: Option<i64>,
    pub build_finished_at: Option<i64>,
    pub build_exit_code: Option<i32>,
    pub run_started_at: Option<i64>,
    pub run_finished_at: Option<i64>,
    pub run_exit_code: Option<i32>,
    pub ready_at: Option<i64>,
    pub ready_via: Option<Seq<char>>,
    pub probe: ProbeView,
    pub config_hash: Seq<char>,
    pub agproc_version: Seq<char>,
    pub updated_at: i64,
}

/// The probe part of a record as plain values.
pub struct ProbeView {
    pub kind: Seq<char>,
    pub target: Seq<char>,
    pub attempts: u32,
    pub last_error: Option<Seq<char>>,
    pub foreign_port_pid: Option<u32>,
}

impl View for ProbeState {
    type V = ProbeView;

    open spec fn view(&self) -> ProbeView {
        ProbeView {
            kind: self.kind@,
            target: self.target@,
            attempts: self.attempts,
            last_error: text::opt_string(self.last_error),
            foreign_port_pid: self.foreign_port_pid,
        }
    }
}

impl View for State {
    type V = StateView;

    open spec fn view(&self) -> StateView {
        StateView {
            schema: self.schema,
            service: self.service@,
            generation: self.generation,
            phase: self.phase,
            runner_pid: self.runner_pid,
            runner_start_ticks: self.runner_start_ticks,
            child_pid: self.child_pid,
            child_pgid: self.child_pgid,
            child_kind: text::opt_string(self.child_kind),
            session_started_at: self.session_started_at,
            session_start_offset: self.session_start_offset,
            build_started_at: self.build_started_at,
            build_finished_at: self.build_finished_at,
            build_exit_code: self.build_exit_code,
            run_started_at: self.run_started_at,
            run_finished_at: self.run_finished_at,
            run_exit_code: self.run_exit_code,
            ready_at: self.ready_at,
            ready_via: text::opt_string(self.ready_via),
            probe: self.probe@,
            config_hash: self.config_hash@,
            agproc_version: self.agproc_version@,
            updated_at: self.updated_at,
        }
    }
}

/// The record of a session that has yet to begin.
pub open spec fn fresh(
    service: Seq<char>,
    generation: u64,
    config_hash: Seq<char>,
    runner_pid: u32,
    ticks: Option<u64>,
    now: i64,
) -> StateView {
    StateView {
        schema: SCHEMA,
        service,
        generation,
        phase: Phase::Stopped,
        runner_pid,
        runner_start_ticks: match ticks {
            Some(t) => t,
            None => 0,
        },
        child_pid: None,
        child_pgid: None,
        child_kind: None,
        session_started_at: now,
        session_start_offset: Offsets { stdout: 0, stderr: 0 },
        build_started_at: None,
        build_finished_at: None,
        build_exit_code: None,
        run_started_at: None,
        run_finished_at: None,
        run_exit_code: None,
        ready_at: None,
        ready_via: None,
        probe: ProbeView {
            kind: Seq::empty(),
            target: Seq::empty(),
            attempts: 0,
            last_error: None,
            foreign_port_pid: None,
        },
        config_hash,
        agproc_version: paths::VERSION@,
        updated_at: now,
    }
}

/// Is a process the one that was recorded? Without a recorded start time, only
/// its liveness counts.
pub open spec fn same_process(pid: u32, recorded_ticks: u64, stat: Option<Seq<char>>) -> bool {
    procinfo::alive(pid, stat) && (recorded_ticks == 0 || match procinfo::start_ticks(stat) {
        Some(ticks) => ticks == recorded_ticks,
        None => true,
    })
}

/// A recorded phase, given whether the runner that recorded it lives.
pub open spec fn effective(phase: Phase, live: bool) -> Phase {
    if !live && in_flight(phase) {
        Phase::Stale
    } else {
        phase
    }
}

/// Is the recorded process still the one that has its pid?
pub fn is_same_process(pid: u32, recorded_ticks: u64, stat: Option<&str>) -> (r: bool)
    ensures
        r == same_process(pid, recorded_ticks, text::opt_str(stat)),
{
    if !procinfo::pid_alive(pid, stat) {
        return false;
    }
    match procinfo::pid_start_ticks(stat) {
        Some(ticks) => recorded_ticks == 0 || ticks == recorded_ticks,
        // Without a recorded start time, fall back to liveness only.
        None => true,
    }
}

/// Is the runner of a record alive?
pub open spec fn live(state: State, stat: Option<Seq<char>>) -> bool {
    same_process(state.runner_pid, state.runner_start_ticks, stat)
}

impl State {
    /// A record of a session that has yet to begin. `ticks` is the runner's
    /// start time, when it is known.
    pub fn new(
        service: &str,
        generation: u64,
        config_hash: &str,
        runner_pid: u32,
        ticks: Option<u64>,
        now: i64,
    ) -> (out: State)
        ensures
            out@ == fresh(service@, generation, config_hash@, runner_pid, ticks, now),
    {
        let runner_start_ticks: u64 = match ticks {
            Some(t) => t,
            None => 0,
        };
        let out = State {
            schema: SCHEMA,
            service: service.to_string(),
            generation,
            phase: Phase::Stopped,
            runner_pid,
            runner_start_ticks,
            child_pid: None,
            child_pgid: None,
            child_kind: None,
            session_started_at: now,
            session_start_offset: Offsets::default(),
            build_started_at: None,
            build_finished_at: None,
            build_exit_code: None,
            run_started_at: None,
            run_finished_at: None,
            run_exit_code: None,
            ready_at: None,
            ready_via: None,
            probe: ProbeState::default(),
            config_hash: config_hash.to_string(),
            agproc_version: paths::VERSION.to_string(),
            updated_at: now,
        };
        assert(out.probe.kind@ =~= Seq::empty());
        assert(out.probe.target@ =~= Seq::empty());
        out
    }

    /// Is the runner that wrote this record still the same live process? `stat`
    /// is that process' stat file, when it can be read.
    pub fn runner_live(&self, stat: Option<&str>) -> (r: bool)
        ensures
            r == live(*self, text::opt_str(stat)),
    {
        is_same_process(self.runner_pid, self.runner_start_ticks, stat)
    }

    /// Recorded phase, downgraded to `Stale` when the runner vanished before
    /// recording an outcome.
    pub fn effective_phase(&self, stat: Option<&str>) -> (r: Phase)
        ensures
            r == effective(self.phase, live(*self, text::opt_str(stat))),
    {
        self.phase.effective(self.runner_live(stat))
    }

    pub fn uptime_ms(&self, now: i64) -> (r: i64)
        requires
            i64::MIN <= now - self.session_started_at <= i64::MAX,
        ensures
            r == now - self.session_started_at,
    {
        now - self.session_started_at
    }

    /// Date the record and say where it is kept.
    pub fn write(&mut self, project: &Project, now: i64) -> (path: FsPath)
        ensures
            path@ == paths::runtime_file(project.root@, "state"@, old(self).service@, ".json"@),
            *final(self) == (State { updated_at: now, ..*old(self) }),
    {
        self.updated_at = now;
        project.state_path(self.service.as_str())
    }
}

// ------------------------------------------------------------------- loading
/// What reading a state file came to.
pub enum StateFile {
    /// There is no such file.
    Absent,
    /// The file cannot be read, and why.
    Unreadable(String),
    /// The file holds no record, and why.
    Unparsable(String),
    /// The record of the file.
    Record(State),
}

/// Result of reading a state file: either a record, or a description of why
/// the file could not be used.
#[derive(Debug)]
pub struct Loaded {
    pub state: Option<State>,
    pub problem: Option<String>,
}

/// A record of this schema is used; whatever else the file is, is reported and
/// never fatal.
pub fn load(path: &FsPath, file: StateFile) -> (r: Loaded)
    ensures
        match file {
            StateFile::Absent => r.state is None && r.problem is None,
            StateFile::Unreadable(reason) => r.state is None && (r.problem matches Some(p) && p@
                == "cannot read "@ + paths::shown(path@) + ": "@ + reason@),
            StateFile::Unparsable(reason) => r.state is None && (r.problem matches Some(p) && p@
                == "cannot parse "@ + paths::shown(path@) + ": "@ + reason@),
            StateFile::Record(state) => if state.schema == SCHEMA {
                r.state == Some(state) && r.problem is None
            } else {
                r.state is None && (r.problem matches Some(p) && p@ == paths::shown(path@)
                    + " was written with state schema "@ + text::decimal(state.schema as nat)
                    + " (this agproc uses "@ + text::decimal(SCHEMA as nat) + "); ignoring it"@)
            },
        },
{
    match file {
        StateFile::Absent => Loaded { state: None, problem: None },
        StateFile::Unreadable(reason) => {
            let mut out = "cannot read ".to_string();
            out.append(path.display().as_str());
            out.append(": ");
            out.append(reason.as_str());
            Loaded { state: None, problem: Some(out) }
        },
        StateFile::Unparsable(reason) => {
            let mut out = "cannot parse ".to_string();
            out.append(path.display().as_str());
            out.append(": ");
            out.append(reason.as_str());
            Loaded { state: None, problem: Some(out) }
        },
        StateFile::Record(state) => if state.schema == SCHEMA {
            Loaded { state: Some(state), problem: None }
        } else {
            let mut out = path.display();
            out.append(" was written with state schema ");
            text::push_u64(&mut out, state.schema as u64);
            out.append(" (this agproc uses ");
            text::push_u64(&mut out, SCHEMA as u64);
            out.append("); ignoring it");
            Loaded { state: None, problem: Some(out) }
        },
    }
}

// ---------------------------------------------------------------------- laws
/// A record is stale exactly when its runner is gone and no outcome had been
/// recorded; a recorded outcome stays as it is.
pub proof fn law_stale_only_while_in_flight(phase: Phase, live: bool)
    requires
        phase != Phase::Stale,
    ensures
        effective(phase, live) == Phase::Stale <==> !live && in_flight(phase),
        effective(phase, live) != Phase::Stale ==> effective(phase, live) == phase,
{
}

/// A process with another start time than the recorded one is not the runner,
/// whatever its PID.
pub proof fn law_pid_reuse_is_detected(state: State, stat: Option<Seq<char>>)
    requires
        state.runner_start_ticks != 0,
        procinfo::start_ticks(stat) matches Some(ticks) && ticks != state.runner_start_ticks,
    ensures
        !live(state, stat),
        in_flight(state.phase) ==> effective(state.phase, live(state, stat)) == Phase::Stale,
{
}

/// A settled phase reports success exactly when the service runs, and each kind
/// of failure has a code of its own; no settled phase reports the code of an
/// unsettled one.
pub proof fn law_settled_codes_tell_failures_apart(a: Phase, b: Phase)
    requires
        is_settled(a),
        is_settled(b),
    ensures
        phase_code(a) == exit::OK <==> a == Phase::Running,
        phase_code(a) != exit::GENERIC,
        phase_code(a) == phase_code(b) ==> a == b || (crashed(a) && crashed(b)),
{
}

/// Did `run-cmd` go away by itself?
pub open spec fn crashed(phase: Phase) -> bool {
    phase == Phase::RunFailed || phase == Phase::Exited || phase == Phase::Stale
}

/// The phases, by what they are: three are under way, of which one is also an
/// outcome for a caller that waits for readiness.
pub proof fn law_three_phases_are_under_way(phase: Phase)
    ensures
        match phase {
            Phase::Building => in_flight(phase) && !is_settled(phase),
            Phase::Starting => in_flight(phase) && !is_settled(phase),
            Phase::Running => in_flight(phase) && is_settled(phase),
            Phase::ConfigFailed => !in_flight(phase) && is_settled(phase),
            Phase::BuildFailed => !in_flight(phase) && is_settled(phase),
            Phase::RunFailed => !in_flight(phase) && is_settled(phase),
            Phase::Exited => !in_flight(phase) && is_settled(phase),
            Phase::ProbeFailed => !in_flight(phase) && is_settled(phase),
            Phase::Stopped => !in_flight(phase) && is_settled(phase),
            Phase::Stale => !in_flight(phase) && is_settled(phase),
        },
{
}

/// The exit code of each phase is the documented one.
pub proof fn law_phases_have_the_documented_codes(phase: Phase)
    ensures
        phase_code(phase) == 0 <==> phase == Phase::Running,
        phase_code(phase) == 1 <==> phase == Phase::Building || phase == Phase::Starting,
        phase_code(phase) == 3 <==> phase == Phase::ConfigFailed,
        phase_code(phase) == 4 <==> phase == Phase::BuildFailed,
        phase_code(phase) == 5 <==> phase == Phase::RunFailed || phase == Phase::Exited || phase
            == Phase::Stale,
        phase_code(phase) == 6 <==> phase == Phase::ProbeFailed,
        phase_code(phase) == 8 <==> phase == Phase::Stopped,
{
}

/// The exit codes are those that agents are told to branch on.
pub proof fn law_exit_codes_are_the_documented_ones()
    ensures
        exit::OK == 0,
        exit::GENERIC == 1,
        exit::USAGE == 2,
        exit::CONFIG == 3,
        exit::BUILD_FAILED == 4,
        exit::RUN_FAILED == 5,
        exit::PROBE_FAILED == 6,
        exit::LOCKED == 7,
        exit::SUPERSEDED == 8,
{
}

/// What a phase is called by programs is what it is called by people, with hyphens
/// for spaces; only a service that was ready and then exited is told differently,
/// as one whose running failed.
pub proof fn law_phases_are_called_by_their_names(phase: Phase)
    ensures
        match phase {
            Phase::Building => phase_name(phase) == "building"@ && phase_words(phase)
                == "building"@,
            Phase::Starting => phase_name(phase) == "starting"@ && phase_words(phase)
                == "starting"@,
            Phase::Running => phase_name(phase) == "running"@ && phase_words(phase) == "running"@,
            Phase::ConfigFailed => phase_name(phase) == "config-failed"@ && phase_words(phase)
                == "config failed"@,
            Phase::BuildFailed => phase_name(phase) == "build-failed"@ && phase_words(phase)
                == "build failed"@,
            Phase::RunFailed => phase_name(phase) == "run-failed"@ && phase_words(phase)
                == "run failed"@,
            Phase::Exited => phase_name(phase) == "exited"@ && phase_words(phase)
                == "running failed"@,
            Phase::ProbeFailed => phase_name(phase) == "probe-failed"@ && phase_words(phase)
                == "probe failed"@,
            Phase::Stopped => phase_name(phase) == "stopped"@ && phase_words(phase) == "stopped"@,
            Phase::Stale => phase_name(phase) == "stale"@ && phase_words(phase) == "stale"@,
        },
{
}

/// The phase of a record is the recorded one while its runner lives, and so is any
/// outcome; a session whose runner is gone before it recorded one is stale.
pub proof fn law_records_without_a_runner_are_stale(phase: Phase)
    ensures
        effective(phase, true) == phase,
        effective(Phase::Building, false) == Phase::Stale,
        effective(Phase::Starting, false) == Phase::Stale,
        effective(Phase::Running, false) == Phase::Stale,
        phase != Phase::Building && phase != Phase::Starting && phase != Phase::Running
            ==> effective(phase, false) == phase,
{
}

/// A runner lives when its pid is a process that is no zombie and that has the
/// recorded start time, as far as both times are known.
pub proof fn law_a_live_runner_is_the_recorded_process(state: State, stat: Option<Seq<char>>)
    ensures
        live(state, stat) <==> {
            &&& state.runner_pid != 0
            &&& procinfo::state_letter(stat) is Some
            &&& procinfo::state_letter(stat) != Some('Z')
            &&& state.runner_start_ticks != 0 && procinfo::start_ticks(stat) is Some
                ==> procinfo::start_ticks(stat) == Some(state.runner_start_ticks as int)
        },
{
}

} // verus!

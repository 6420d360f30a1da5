//! `agproc ps` — what is actually running.
//!
//! Every row is derived from the state file plus a liveness check on the runner
//! (pid + `/proc/<pid>/stat` start time), so the answer stays correct long
//! after the CLI that started the service exited.

use vstd::prelude::*;
use vstd::string::*;
use vstd::utf8::*;

use crate::config;
use crate::config::{ProbeTarget, Service};
use crate::paths;
use crate::paths::Project;
use crate::state;
use crate::state::{Phase, State};
use crate::text;
use crate::util;

verus! {

pub struct Request {
    pub services: Vec<String>,
    pub json: bool,
}

pub struct ProbeInfo {
    pub kind: String,
    pub target: String,
    pub attempts: u32,
    pub last_error: Option<String>,
}

pub struct Row {
    pub name: String,
    pub phase: String,
    pub phase_display: String,
    pub pid: Option<u32>,
    pub runner_pid: u32,
    pub child_pid: Option<u32>,
    pub ready: bool,
    pub started_at: Option<String>,
    pub uptime_seconds: Option<i64>,
    pub build_exit_code: Option<i32>,
    pub run_exit_code: Option<i32>,
    pub probe: Option<ProbeInfo>,
    pub config_changed: bool,
    pub detail: String,
    pub log_stdout: String,
    pub log_stderr: String,
}

pub struct Report {
    pub version: String,
    pub root: String,
    pub services: Vec<Row>,
}

/// A probe as plain values.
pub struct ProbeInfoView {
    pub kind: Seq<char>,
    pub target: Seq<char>,
    pub attempts: u32,
    pub last_error: Option<Seq<char>>,
}

/// A row as plain values.
pub struct RowView {
    pub name: Seq<char>,
    pub phase: Seq<char>,
    pub phase_display: Seq<char>,
    pub pid: Option<u32>,
    pub runner_pid: u32,
    pub child_pid: Option<u32>,
    pub ready: bool,
    pub started_at: Option<Seq<char>>,
    pub uptime_seconds: Option<int>,
    pub build_exit_code: Option<i32>,
    pub run_exit_code: Option<i32>,
    pub probe: Option<ProbeInfoView>,
    pub config_changed: bool,
    pub detail: Seq<char>,
    pub log_stdout: Seq<char>,
    pub log_stderr: Seq<char>,
}

impl View for Row {
    type V = RowView;

    open spec fn view(&self) -> RowView {
        RowView {
            name: self.name@,
            phase: self.phase@,
            phase_display: self.phase_display@,
            pid: self.pid,
            runner_pid: self.runner_pid,
            child_pid: self.child_pid,
            ready: self.ready,
            started_at: text::opt_string(self.started_at),
            uptime_seconds: match self.uptime_seconds {
                Some(seconds) => Some(seconds as int),
                None => None,
            },
            build_exit_code: self.build_exit_code,
            run_exit_code: self.run_exit_code,
            probe: match self.probe {
                Some(probe) => Some(
                    ProbeInfoView {
                        kind: probe.kind@,
                        target: probe.target@,
                        attempts: probe.attempts,
                        last_error: text::opt_string(probe.last_error),
                    },
                ),
                None => None,
            },
            config_changed: self.config_changed,
            detail: self.detail@,
            log_stdout: self.log_stdout@,
            log_stderr: self.log_stderr@,
        }
    }
}

/// Whole seconds of a number of milliseconds, towards zero.
pub open spec fn whole_seconds(ms: int) -> int {
    if ms >= 0 {
        ms / 1000
    } else {
        -((-ms) / 1000)
    }
}

fn seconds_of(ms: i64) -> (r: i64)
    ensures
        r == whole_seconds(ms as int),
{
    if ms >= 0 {
        ms / 1000
    } else {
        let magnitude: i128 = -(ms as i128);
        (-(magnitude / 1000)) as i64
    }
}

/// `<head><code><tail>` for an exit code, or what stands without one.
pub open spec fn with_code(
    code: Option<i32>,
    head: Seq<char>,
    tail: Seq<char>,
    without: Seq<char>,
) -> Seq<char> {
    match code {
        Some(code) => head + text::signed_decimal(code as int) + tail,
        None => without,
    }
}

/// What a record says of its service, in words.
pub open spec fn detail_text(state: State, phase: Phase, target: ProbeTarget, now: i64) -> Seq<
    char,
> {
    match phase {
        Phase::Building => "building for "@ + util::duration(now - state.session_started_at),
        Phase::Starting => "probing ("@ + config::target_text(target) + ")"@,
        Phase::Running => "ready "@ + (match state.ready_at {
            Some(at) => util::duration(now - at),
            None => "?"@,
        }) + " ago, probe "@ + state.probe.target@,
        Phase::BuildFailed => with_code(
            state.build_exit_code,
            "build-cmd exited with "@,
            ""@,
            "build-cmd timed out"@,
        ),
        Phase::RunFailed => with_code(
            state.run_exit_code,
            "run-cmd exited with "@,
            " before the probe passed"@,
            "run-cmd exited before the probe passed"@,
        ),
        Phase::Exited => with_code(
            state.run_exit_code,
            "run-cmd exited with "@,
            " after the probe passed"@,
            "run-cmd terminated after the probe passed"@,
        ),
        Phase::ProbeFailed => state.probe.kind@ + " "@ + config::target_text(target) + (
        match state.probe.last_error {
            Some(err) => ": "@ + err@,
            None => " never became ready"@,
        }),
        Phase::ConfigFailed => "configuration error (see .agproc/tmp/"@ + state.service@
            + ".console.stdout)"@,
        Phase::Stopped => "stopped"@,
        Phase::Stale => "runner "@ + text::decimal(state.runner_pid as nat)
            + " disappeared without recording an outcome"@,
    }
}

/// The row of a service that has no record.
pub open spec fn row_without_record(service: Service, root: Seq<u8>) -> RowView {
    RowView {
        name: service.name@,
        phase: state::phase_name(Phase::Stopped),
        phase_display: state::phase_words(Phase::Stopped),
        pid: None,
        runner_pid: 0,
        child_pid: None,
        ready: false,
        started_at: None,
        uptime_seconds: None,
        build_exit_code: None,
        run_exit_code: None,
        probe: None,
        config_changed: false,
        detail: "never started"@,
        log_stdout: paths::shown(
            paths::runtime_file(root, "logs"@, service.name@, ".stdout.log"@),
        ),
        log_stderr: paths::shown(
            paths::runtime_file(root, "logs"@, service.name@, ".stderr.log"@),
        ),
    }
}

/// The row of a service with a record. `started` is the session's start as text.
pub open spec fn row_of_record(
    service: Service,
    record: State,
    stat: Option<Seq<char>>,
    config_changed: bool,
    root: Seq<u8>,
    started: Seq<char>,
    now: i64,
) -> RowView {
    let live = state::live(record, stat);
    let phase = state::effective(record.phase, live);
    let running = state::in_flight(phase);
    RowView {
        name: record.service@,
        phase: state::phase_name(phase),
        phase_display: state::phase_words(phase),
        pid: if running {
            match record.child_pid {
                Some(pid) => Some(pid),
                None => Some(record.runner_pid),
            }
        } else {
            None
        },
        runner_pid: if live {
            record.runner_pid
        } else {
            0
        },
        child_pid: record.child_pid,
        ready: phase == Phase::Running || phase == Phase::Exited,
        started_at: Some(started),
        uptime_seconds: if running {
            Some(whole_seconds(now - record.session_started_at))
        } else {
            None
        },
        build_exit_code: record.build_exit_code,
        run_exit_code: record.run_exit_code,
        probe: Some(
            ProbeInfoView {
                kind: record.probe.kind@,
                target: record.probe.target@,
                attempts: record.probe.attempts,
                last_error: text::opt_string(record.probe.last_error),
            },
        ),
        config_changed,
        detail: detail_text(record, phase, config::service_target(service), now),
        log_stdout: paths::shown(
            paths::runtime_file(root, "logs"@, service.name@, ".stdout.log"@),
        ),
        log_stderr: paths::shown(
            paths::runtime_file(root, "logs"@, service.name@, ".stderr.log"@),
        ),
    }
}

/// Can the ages be told that a row of a record in this phase shows? A service
/// that is up or on its way shows the age of its session, one that is ready also
/// the time since then.
pub open spec fn datable(record: State, phase: Phase, now: i64) -> bool {
    &&& state::in_flight(phase) ==> i64::MIN <= now - record.session_started_at <= i64::MAX
    &&& phase == Phase::Running && record.ready_at is Some ==> i64::MIN <= now
        - record.ready_at->Some_0 <= i64::MAX
}

/// Was a running service started from another revision of the configuration?
pub fn config_changed(state: Option<&State>, current_hash: &str) -> (r: bool)
    ensures
        r == match state {
            Some(state) => state.config_hash@.len() > 0 && state.config_hash@ != current_hash@,
            None => false,
        },
{
    match state {
        Some(state) => text::chars_of(state.config_hash.as_str()).len() > 0 && !text::same(
            state.config_hash.as_str(),
            current_hash,
        ),
        None => false,
    }
}

fn code_text(code: Option<i32>, head: &str, tail: &str, without: &str) -> (out: String)
    ensures
        out@ == with_code(code, head@, tail@, without@),
{
    match code {
        Some(code) => {
            let mut out = head.to_string();
            text::push_i64(&mut out, code as i64);
            out.append(tail);
            out
        },
        None => without.to_string(),
    }
}

fn detail(state: &State, phase: Phase, target: &ProbeTarget, now: i64) -> (out: String)
    requires
        datable(*state, phase, now),
    ensures
        out@ == detail_text(*state, phase, *target, now),
{
    match phase {
        Phase::Building => {
            let mut out = "building for ".to_string();
            out.append(util::format_duration_ms(state.uptime_ms(now)).as_str());
            out
        },
        Phase::Starting => {
            let mut out = "probing (".to_string();
            out.append(target.describe().as_str());
            out.append(")");
            out
        },
        Phase::Running => {
            let mut out = "ready ".to_string();
            match state.ready_at {
                Some(at) => out.append(util::format_duration_ms(now - at).as_str()),
                None => out.append("?"),
            }
            out.append(" ago, probe ");
            out.append(state.probe.target.as_str());
            out
        },
        Phase::BuildFailed => code_text(
            state.build_exit_code,
            "build-cmd exited with ",
            "",
            "build-cmd timed out",
        ),
        Phase::RunFailed => code_text(
            state.run_exit_code,
            "run-cmd exited with ",
            " before the probe passed",
            "run-cmd exited before the probe passed",
        ),
        Phase::Exited => code_text(
            state.run_exit_code,
            "run-cmd exited with ",
            " after the probe passed",
            "run-cmd terminated after the probe passed",
        ),
        Phase::ProbeFailed => {
            let mut out = state.probe.kind.clone();
            out.append(" ");
            out.append(target.describe().as_str());
            match &state.probe.last_error {
                Some(err) => {
                    let mut why = ": ".to_string();
                    why.append(err.as_str());
                    out.append(why.as_str());
                },
                None => out.append(" never became ready"),
            }
            out
        },
        Phase::ConfigFailed => {
            let mut out = "configuration error (see .agproc/tmp/".to_string();
            out.append(state.service.as_str());
            out.append(".console.stdout)");
            out
        },
        Phase::Stopped => "stopped".to_string(),
        Phase::Stale => {
            let mut out = "runner ".to_string();
            text::push_u64(&mut out, state.runner_pid as u64);
            out.append(" disappeared without recording an outcome");
            out
        },
    }
}

/// The row of one service. `stat` is the stat file of the recorded runner and
/// `started` the recorded session's start as text.
pub fn row_for(
    service: &Service,
    record: Option<&State>,
    stat: Option<&str>,
    config_changed: bool,
    project: &Project,
    started: &str,
    now: i64,
) -> (row: Row)
    requires
        record matches Some(state) ==> datable(
            *state,
            state::effective(state.phase, state::live(*state, text::opt_str(stat))),
            now,
        ),
    ensures
        row@ == match record {
            Some(state) => row_of_record(
                *service,
                *state,
                text::opt_str(stat),
                config_changed,
                project.root@,
                started@,
                now,
            ),
            None => row_without_record(*service, project.root@),
        },
{
    let target = service.target();
    let log_stdout = project.log_stdout(service.name.as_str()).display();
    let log_stderr = project.log_stderr(service.name.as_str()).display();
    let state = match record {
        None => {
            return Row {
                name: service.name.clone(),
                phase: Phase::Stopped.as_str().to_string(),
                phase_display: Phase::Stopped.display().to_string(),
                pid: None,
                runner_pid: 0,
                child_pid: None,
                ready: false,
                started_at: None,
                uptime_seconds: None,
                build_exit_code: None,
                run_exit_code: None,
                probe: None,
                config_changed: false,
                detail: "never started".to_string(),
                log_stdout,
                log_stderr,
            };
        },
        Some(state) => state,
    };
    let phase = state.effective_phase(stat);
    let live = state.runner_live(stat);
    let running = match phase {
        Phase::Running | Phase::Starting | Phase::Building => true,
        _ => false,
    };
    let ready = match phase {
        Phase::Running | Phase::Exited => true,
        _ => false,
    };
    let pid: Option<u32> = if running {
        match state.child_pid {
            Some(pid) => Some(pid),
            None => Some(state.runner_pid),
        }
    } else {
        None
    };
    let uptime_seconds: Option<i64> = if running {
        Some(seconds_of(state.uptime_ms(now)))
    } else {
        None
    };
    let runner_pid: u32 = if live {
        state.runner_pid
    } else {
        0
    };
    Row {
        name: state.service.clone(),
        phase: phase.as_str().to_string(),
        phase_display: phase.display().to_string(),
        pid,
        runner_pid,
        child_pid: state.child_pid,
        ready,
        started_at: Some(started.to_string()),
        uptime_seconds,
        build_exit_code: state.build_exit_code,
        run_exit_code: state.run_exit_code,
        probe: Some(
            ProbeInfo {
                kind: state.probe.kind.clone(),
                target: state.probe.target.clone(),
                attempts: state.probe.attempts,
                last_error: text::copied(&state.probe.last_error),
            },
        ),
        config_changed,
        detail: detail(state, phase, &target, now),
        log_stdout,
        log_stderr,
    }
}

// --------------------------------------------------------------------- table
pub open spec fn rows_view(rows: Seq<Row>) -> Seq<RowView> {
    rows.map_values(|row: Row| row@)
}

/// The width of a column: that of its heading or of its longest entry.
pub open spec fn name_width(rows: Seq<RowView>) -> nat
    decreases rows.len(),
{
    if rows.len() == 0 {
        4
    } else {
        wider(encode_utf8(rows.last().name).len(), name_width(rows.drop_last()))
    }
}

pub open spec fn status_width(rows: Seq<RowView>) -> nat
    decreases rows.len(),
{
    if rows.len() == 0 {
        6
    } else {
        wider(encode_utf8(rows.last().phase_display).len(), status_width(rows.drop_last()))
    }
}

pub open spec fn wider(a: nat, b: nat) -> nat {
    if a > b {
        a
    } else {
        b
    }
}

/// One line of the table.
pub open spec fn table_line(
    names: nat,
    statuses: nat,
    name: Seq<char>,
    status: Seq<char>,
    pid: Seq<char>,
    uptime: Seq<char>,
    detail: Seq<char>,
) -> Seq<char> {
    text::padded(name, names as int) + "  "@ + text::padded(status, statuses as int) + "  "@
        + text::padded(pid, 7) + "  "@ + text::padded(uptime, 7) + "  "@ + detail
}

/// The line of a row.
pub open spec fn row_line(names: nat, statuses: nat, row: RowView) -> Seq<char> {
    table_line(
        names,
        statuses,
        row.name,
        row.phase_display,
        match row.pid {
            Some(pid) => text::decimal(pid as nat),
            None => "-"@,
        },
        match row.uptime_seconds {
            Some(seconds) => util::duration(seconds * 1000),
            None => "-"@,
        },
        if row.config_changed {
            row.detail + " [config changed since start]"@
        } else {
            row.detail
        },
    )
}

/// Does no row have a live runner?
pub open spec fn none_live(rows: Seq<RowView>) -> bool {
    forall|i: int| 0 <= i < rows.len() ==> (#[trigger] rows[i]).runner_pid == 0
}

/// The lines of the table.
pub open spec fn table(rows: Seq<RowView>) -> Seq<Seq<char>> {
    seq![
        table_line(
            name_width(rows),
            status_width(rows),
            "NAME"@,
            "STATUS"@,
            "PID"@,
            "UPTIME"@,
            "DETAIL"@,
        ),
    ] + rows.map_values(|row: RowView| row_line(name_width(rows), status_width(rows), row)) + (
    if none_live(rows) {
        seq!["(no agproc-managed service is running)"@]
    } else {
        Seq::empty()
    })
}

fn push_line(
    out: &mut Vec<String>,
    names: usize,
    statuses: usize,
    name: &str,
    status: &str,
    pid: &str,
    uptime: &str,
    detail: &str,
)
    ensures
        text::texts(final(out)@) == text::texts(old(out)@).push(
            table_line(names as nat, statuses as nat, name@, status@, pid@, uptime@, detail@),
        ),
{
    let ghost before = out@;
    let mut line = String::new();
    text::push_padded(&mut line, name, names);
    assert(line@ =~= text::padded(name@, names as int));
    line.append("  ");
    text::push_padded(&mut line, status, statuses);
    line.append("  ");
    text::push_padded(&mut line, pid, 7);
    line.append("  ");
    text::push_padded(&mut line, uptime, 7);
    line.append("  ");
    line.append(detail);
    let ghost shown = line@;
    assert(shown =~= table_line(
        names as nat,
        statuses as nat,
        name@,
        status@,
        pid@,
        uptime@,
        detail@,
    ));
    out.push(line);
    assert(text::texts(out@) =~= text::texts(before).push(shown));
}

/// The table of `agproc ps`, line by line.
pub fn print_table(rows: &Vec<Row>) -> (out: Vec<String>)
    requires
        forall|i: int|
            0 <= i < rows@.len() ==> ((#[trigger] rows@[i]).uptime_seconds matches Some(seconds)
                ==> i64::MIN <= seconds * 1000 <= i64::MAX),
    ensures
        text::texts(out@) == table(rows_view(rows@)),
{
    let ghost all = rows_view(rows@);
    let mut names: usize = 4;
    let mut statuses: usize = 6;
    let mut idle = true;
    for i in 0..rows.len()
        invariant
            all == rows_view(rows@),
            names == name_width(all.take(i as int)),
            statuses == status_width(all.take(i as int)),
            idle == none_live(all.take(i as int)),
    {
        let row = &rows[i];
        proof {
            assert(all.take(i + 1).drop_last() =~= all.take(i as int));
            assert(all.take(i + 1).last() == row@);
            assert(none_live(all.take(i + 1)) == (none_live(all.take(i as int)) && row.runner_pid
                == 0)) by {
                if none_live(all.take(i + 1)) {
                    assert forall|k: int| 0 <= k < i implies (#[trigger] all.take(
                        i as int,
                    )[k]).runner_pid == 0 by {
                        assert(all.take(i + 1)[k].runner_pid == 0);
                    }
                    assert(all.take(i + 1)[i as int].runner_pid == 0);
                }
                if none_live(all.take(i as int)) && row.runner_pid == 0 {
                    assert forall|k: int| 0 <= k < i + 1 implies (#[trigger] all.take(
                        i + 1,
                    )[k]).runner_pid == 0 by {
                        if k < i {
                            assert(all.take(i as int)[k].runner_pid == 0);
                        }
                    }
                }
            }
        }
        let name_len = row.name.as_str().as_bytes().len();
        if name_len > names {
            names = name_len;
        }
        let status_len = row.phase_display.as_str().as_bytes().len();
        if status_len > statuses {
            statuses = status_len;
        }
        if row.runner_pid != 0 {
            idle = false;
        }
    }
    assert(all.take(all.len() as int) =~= all);
    let mut out: Vec<String> = Vec::new();
    push_line(&mut out, names, statuses, "NAME", "STATUS", "PID", "UPTIME", "DETAIL");
    let ghost heading = seq![
        table_line(
            names as nat,
            statuses as nat,
            "NAME"@,
            "STATUS"@,
            "PID"@,
            "UPTIME"@,
            "DETAIL"@,
        ),
    ];
    let ghost body = all.map_values(|row: RowView| row_line(names as nat, statuses as nat, row));
    assert(text::texts(out@) =~= heading + body.take(0));
    for i in 0..rows.len()
        invariant
            all == rows_view(rows@),
            body == all.map_values(|row: RowView| row_line(names as nat, statuses as nat, row)),
            text::texts(out@) == heading + body.take(i as int),
            forall|k: int|
                0 <= k < rows@.len() ==> ((#[trigger] rows@[k]).uptime_seconds matches Some(
                    seconds,
                ) ==> i64::MIN <= seconds * 1000 <= i64::MAX),
    {
        let row = &rows[i];
        let pid = match row.pid {
            Some(pid) => text::u64_text(pid as u64),
            None => "-".to_string(),
        };
        let uptime = match row.uptime_seconds {
            Some(seconds) => util::format_duration_ms(seconds * 1000),
            None => "-".to_string(),
        };
        let mut detail = row.detail.clone();
        if row.config_changed {
            detail.append(" [config changed since start]");
        }
        push_line(
            &mut out,
            names,
            statuses,
            row.name.as_str(),
            row.phase_display.as_str(),
            pid.as_str(),
            uptime.as_str(),
            detail.as_str(),
        );
        proof {
            assert(all[i as int] == row@);
            assert(body[i as int] == row_line(names as nat, statuses as nat, row@));
            assert(heading + body.take(i + 1) =~= (heading + body.take(i as int)).push(
                body[i as int],
            ));
        }
    }
    assert(body.take(body.len() as int) =~= body);
    let ghost before = out@;
    if idle {
        let line = "(no agproc-managed service is running)".to_string();
        out.push(line);
        assert(text::texts(out@) =~= text::texts(before).push(
            "(no agproc-managed service is running)"@,
        ));
    }
    assert(text::texts(out@) =~= table(all));
    out
}

// ---------------------------------------------------------------------- laws
/// A service is shown as running, with a process and an uptime, only while the
/// runner that recorded it is the same live process.
pub proof fn law_running_rows_have_live_runners(
    service: Service,
    record: State,
    stat: Option<Seq<char>>,
    config_changed: bool,
    root: Seq<u8>,
    started: Seq<char>,
    now: i64,
)
    ensures
        ({
            let row = row_of_record(service, record, stat, config_changed, root, started, now);
            &&& row.pid is Some <==> state::live(record, stat) && state::in_flight(record.phase)
            &&& row.uptime_seconds is Some <==> row.pid is Some
            &&& !state::live(record, stat) ==> row.runner_pid == 0
        }),
{
}

} // verus!

//! What `agproc ps` shows of every record.

use vstd::prelude::*;
use vstd::utf8::*;

use crate::cmd::ps;
use crate::cmd::ps::{Row, RowView};
use crate::config;
use crate::config::{ProbeTarget, Service};
use crate::paths;
use crate::state;
use crate::state::{Phase, State};
use crate::text;
use crate::util;

verus! {

/// A row shows as plain values exactly what it holds.
pub proof fn law_rows_show_what_they_hold(row: Row)
    ensures
        row@.name == row.name@,
        row@.phase == row.phase@,
        row@.phase_display == row.phase_display@,
        row@.pid == row.pid,
        row@.runner_pid == row.runner_pid,
        row@.child_pid == row.child_pid,
        row@.ready == row.ready,
        row@.started_at is Some <==> row.started_at is Some,
        row.started_at matches Some(at) ==> row@.started_at == Some(at@),
        row@.uptime_seconds is Some <==> row.uptime_seconds is Some,
        row.uptime_seconds matches Some(n) ==> row@.uptime_seconds == Some(n as int),
        row@.build_exit_code == row.build_exit_code,
        row@.run_exit_code == row.run_exit_code,
        row@.probe is Some <==> row.probe is Some,
        row.probe matches Some(p) ==> {
            let q = row@.probe->Some_0;
            &&& q.kind == p.kind@
            &&& q.target == p.target@
            &&& q.attempts == p.attempts
            &&& q.last_error is Some <==> p.last_error is Some
            &&& p.last_error matches Some(e) ==> q.last_error == Some(e@)
        },
        row@.config_changed == row.config_changed,
        row@.detail == row.detail@,
        row@.log_stdout == row.log_stdout@,
        row@.log_stderr == row.log_stderr@,
{
}

/// The row of a record carries the record's own values: its service, its child,
/// the exit code of its build, the exit code of its run, and its probe.
pub proof fn law_rows_carry_the_values_of_the_record(
    service: Service,
    record: State,
    stat: Option<Seq<char>>,
    config_changed: bool,
    root: Seq<u8>,
    started: Seq<char>,
    now: i64,
)
    ensures
        ({
            let row = ps::row_of_record(
                service,
                record,
                stat,
                config_changed,
                root,
                started,
                now,
            );
            &&& row.name == record.service@
            &&& row.child_pid == record.child_pid
            &&& row.build_exit_code == record.build_exit_code
            &&& row.run_exit_code == record.run_exit_code
            &&& row.started_at == Some(started)
            &&& row.config_changed == config_changed
            &&& row.probe is Some
            &&& (row.probe->Some_0).kind == record.probe.kind@
            &&& (row.probe->Some_0).target == record.probe.target@
            &&& (row.probe->Some_0).attempts == record.probe.attempts
            &&& (row.probe->Some_0).last_error is Some <==> record.probe.last_error is Some
            &&& record.probe.last_error matches Some(e) ==> (row.probe->Some_0).last_error == Some(
                e@,
            )
            &&& row.log_stdout == paths::shown(
                paths::runtime_file(root, "logs"@, service.name@, ".stdout.log"@),
            )
            &&& row.log_stderr == paths::shown(
                paths::runtime_file(root, "logs"@, service.name@, ".stderr.log"@),
            )
        }),
{
}

/// The row of a service whose runner lives shows the recorded phase, the runner
/// and, while the session is under way, a process to look at and how long the
/// session has lasted. The process is the child, or the runner before there is
/// one.
pub proof fn law_live_rows_show_their_session(
    service: Service,
    record: State,
    stat: Option<Seq<char>>,
    config_changed: bool,
    root: Seq<u8>,
    started: Seq<char>,
    now: i64,
)
    requires
        state::live(record, stat),
    ensures
        ({
            let row = ps::row_of_record(
                service,
                record,
                stat,
                config_changed,
                root,
                started,
                now,
            );
            let busy = record.phase == Phase::Building || record.phase == Phase::Starting
                || record.phase == Phase::Running;
            &&& row.phase == state::phase_name(record.phase)
            &&& row.phase_display == state::phase_words(record.phase)
            &&& row.runner_pid == record.runner_pid
            &&& row.ready <==> record.phase == Phase::Running || record.phase == Phase::Exited
            &&& busy && record.child_pid is Some ==> row.pid == record.child_pid
            &&& busy && record.child_pid is None ==> row.pid == Some(record.runner_pid)
            &&& busy && now >= record.session_started_at ==> row.uptime_seconds == Some(
                (now - record.session_started_at) / 1000,
            )
            &&& busy ==> row.uptime_seconds == Some(
                ps::whole_seconds(now - record.session_started_at),
            )
            &&& !busy ==> row.pid is None && row.uptime_seconds is None
            &&& row.detail == ps::detail_text(
                record,
                record.phase,
                config::service_target(service),
                now,
            )
        }),
{
}

/// The row of a service whose runner is gone shows no runner, no process and no
/// uptime; a session that recorded no outcome is stale.
pub proof fn law_rows_without_a_runner_show_none(
    service: Service,
    record: State,
    stat: Option<Seq<char>>,
    config_changed: bool,
    root: Seq<u8>,
    started: Seq<char>,
    now: i64,
)
    requires
        !state::live(record, stat),
    ensures
        ({
            let row = ps::row_of_record(
                service,
                record,
                stat,
                config_changed,
                root,
                started,
                now,
            );
            let busy = record.phase == Phase::Building || record.phase == Phase::Starting
                || record.phase == Phase::Running;
            let phase = if busy {
                Phase::Stale
            } else {
                record.phase
            };
            &&& row.runner_pid == 0 && row.pid is None && row.uptime_seconds is None
            &&& row.phase == state::phase_name(phase)
            &&& row.phase_display == state::phase_words(phase)
            &&& row.ready <==> record.phase == Phase::Exited
            &&& row.detail == ps::detail_text(
                record,
                phase,
                config::service_target(service),
                now,
            )
        }),
{
}

/// The row of a service that has no record is that of one that never started.
pub proof fn law_services_without_a_record_never_started(service: Service, root: Seq<u8>)
    ensures
        ({
            let row = ps::row_without_record(service, root);
            &&& row.name == service.name@
            &&& row.phase == "stopped"@ && row.phase_display == "stopped"@
            &&& row.pid is None && row.runner_pid == 0 && row.child_pid is None
            &&& !row.ready && !row.config_changed
            &&& row.started_at is None && row.uptime_seconds is None
            &&& row.build_exit_code is None && row.run_exit_code is None
            &&& row.probe is None
            &&& row.detail == "never started"@
            &&& row.log_stdout == paths::shown(
                paths::runtime_file(root, "logs"@, service.name@, ".stdout.log"@),
            )
            &&& row.log_stderr == paths::shown(
                paths::runtime_file(root, "logs"@, service.name@, ".stderr.log"@),
            )
        }),
{
}

/// A failure is explained by the exit code of the command that failed: a failed
/// build by that of the build, a failed run and a service that exited by that of
/// the run.
pub proof fn law_failures_are_explained_by_their_own_code(
    record: State,
    target: ProbeTarget,
    now: i64,
)
    ensures
        ps::detail_text(record, Phase::BuildFailed, target, now) == match record.build_exit_code {
            Some(code) => "build-cmd exited with "@ + text::signed_decimal(code as int) + ""@,
            None => "build-cmd timed out"@,
        },
        ps::detail_text(record, Phase::RunFailed, target, now) == match record.run_exit_code {
            Some(code) => "run-cmd exited with "@ + text::signed_decimal(code as int)
                + " before the probe passed"@,
            None => "run-cmd exited before the probe passed"@,
        },
        ps::detail_text(record, Phase::Exited, target, now) == match record.run_exit_code {
            Some(code) => "run-cmd exited with "@ + text::signed_decimal(code as int)
                + " after the probe passed"@,
            None => "run-cmd terminated after the probe passed"@,
        },
        ps::detail_text(record, Phase::ProbeFailed, target, now) == match record.probe.last_error {
            Some(err) => record.probe.kind@ + " "@ + config::target_text(target) + (": "@ + err@),
            None => record.probe.kind@ + " "@ + config::target_text(target)
                + " never became ready"@,
        },
        ps::detail_text(record, Phase::ConfigFailed, target, now)
            == "configuration error (see .agproc/tmp/"@ + record.service@ + ".console.stdout)"@,
        ps::detail_text(record, Phase::Stale, target, now) == "runner "@ + text::decimal(
            record.runner_pid as nat,
        ) + " disappeared without recording an outcome"@,
        ps::detail_text(record, Phase::Stopped, target, now) == "stopped"@,
{
}

/// A service on its way says how long it has been building or what it waits for; a
/// ready one how long ago it became ready, and by which probe.
pub proof fn law_services_under_way_say_how_far_they_are(
    record: State,
    target: ProbeTarget,
    now: i64,
)
    ensures
        ps::detail_text(record, Phase::Building, target, now) == "building for "@ + util::duration(
            now - record.session_started_at,
        ),
        ps::detail_text(record, Phase::Starting, target, now) == "probing ("@
            + config::target_text(target) + ")"@,
        ps::detail_text(record, Phase::Running, target, now) == match record.ready_at {
            Some(at) => "ready "@ + util::duration(now - at) + " ago, probe "@
                + record.probe.target@,
            None => "ready "@ + "?"@ + " ago, probe "@ + record.probe.target@,
        },
{
}

/// An uptime counts whole seconds, towards zero on either side of it.
pub proof fn law_uptimes_count_whole_seconds(seconds: int, ms: int)
    requires
        seconds >= 0,
        0 <= ms < 1000,
    ensures
        ps::whole_seconds(1000 * seconds + ms) == seconds,
        ps::whole_seconds(-(1000 * seconds + ms)) == -seconds,
{
}

// ---------------------------------------------------------------------- table
proof fn lemma_widths(rows: Seq<RowView>, i: int)
    requires
        0 <= i < rows.len(),
    ensures
        encode_utf8(rows[i].name).len() <= ps::name_width(rows),
        encode_utf8(rows[i].phase_display).len() <= ps::status_width(rows),
    decreases rows.len(),
{
    if i < rows.len() - 1 {
        assert(rows.drop_last()[i] == rows[i]);
        lemma_widths(rows.drop_last(), i);
    }
}

proof fn lemma_widths_are_reached(rows: Seq<RowView>)
    ensures
        ps::name_width(rows) == 4 || exists|i: int|
            0 <= i < rows.len() && encode_utf8((#[trigger] rows[i]).name).len()
                == ps::name_width(rows),
        ps::status_width(rows) == 6 || exists|i: int|
            0 <= i < rows.len() && encode_utf8((#[trigger] rows[i]).phase_display).len()
                == ps::status_width(rows),
        ps::name_width(rows) >= 4,
        ps::status_width(rows) >= 6,
    decreases rows.len(),
{
    if rows.len() > 0 {
        let front = rows.drop_last();
        lemma_widths_are_reached(front);
        let last = rows.len() - 1;
        assert(rows[last] == rows.last());
        if ps::name_width(rows) == ps::name_width(front) && ps::name_width(front) != 4 {
            let i = choose|i: int|
                0 <= i < front.len() && encode_utf8((#[trigger] front[i]).name).len()
                    == ps::name_width(front);
            assert(rows[i] == front[i]);
        }
        if ps::status_width(rows) == ps::status_width(front) && ps::status_width(front) != 6 {
            let i = choose|i: int|
                0 <= i < front.len() && encode_utf8((#[trigger] front[i]).phase_display).len()
                    == ps::status_width(front);
            assert(rows[i] == front[i]);
        }
    }
}

/// A column is as wide as its widest entry, or as its heading where that is wider.
pub proof fn law_columns_are_as_wide_as_their_widest_entry(rows: Seq<RowView>, i: int)
    requires
        0 <= i < rows.len(),
    ensures
        encode_utf8(rows[i].name).len() <= ps::name_width(rows),
        encode_utf8(rows[i].phase_display).len() <= ps::status_width(rows),
        ps::name_width(rows) == 4 || exists|k: int|
            0 <= k < rows.len() && encode_utf8((#[trigger] rows[k]).name).len()
                == ps::name_width(rows),
        ps::status_width(rows) == 6 || exists|k: int|
            0 <= k < rows.len() && encode_utf8((#[trigger] rows[k]).phase_display).len()
                == ps::status_width(rows),
        ps::name_width(rows) >= 4,
        ps::status_width(rows) >= 6,
{
    lemma_widths(rows, i);
    lemma_widths_are_reached(rows);
}

/// The table has a heading and a line for each row, in their order; it ends with a
/// note exactly when no row has a runner.
pub proof fn law_the_table_has_a_line_for_each_row(rows: Seq<RowView>, i: int)
    requires
        0 <= i < rows.len(),
    ensures
        ({
            let names = ps::name_width(rows) as int;
            let statuses = ps::status_width(rows) as int;
            let row = rows[i];
            let lines = ps::table(rows);
            let idle = forall|k: int| 0 <= k < rows.len() ==> (#[trigger] rows[k]).runner_pid == 0;
            &&& lines[0] == text::padded("NAME"@, names) + "  "@ + text::padded(
                "STATUS"@,
                statuses,
            ) + "  "@ + text::padded("PID"@, 7) + "  "@ + text::padded("UPTIME"@, 7) + "  "@
                + "DETAIL"@
            &&& lines[i + 1] == text::padded(row.name, names) + "  "@ + text::padded(
                row.phase_display,
                statuses,
            ) + "  "@ + text::padded(
                (match row.pid {
                    Some(pid) => text::decimal(pid as nat),
                    None => "-"@,
                }),
                7,
            ) + "  "@ + text::padded(
                (match row.uptime_seconds {
                    Some(seconds) => util::duration(seconds * 1000),
                    None => "-"@,
                }),
                7,
            ) + "  "@ + (if row.config_changed {
                row.detail + " [config changed since start]"@
            } else {
                row.detail
            })
            &&& idle ==> lines.len() == rows.len() + 2 && lines[rows.len() as int + 1]
                == "(no agproc-managed service is running)"@
            &&& !idle ==> lines.len() == rows.len() + 1
        }),
{
}

/// Without a row there is the heading and the note.
pub proof fn law_an_empty_table_says_so()
    ensures
        ({
            let lines = ps::table(Seq::empty());
            &&& lines.len() == 2
            &&& lines[0] == text::padded("NAME"@, 4) + "  "@ + text::padded("STATUS"@, 6) + "  "@
                + text::padded("PID"@, 7) + "  "@ + text::padded("UPTIME"@, 7) + "  "@ + "DETAIL"@
            &&& lines[1] == "(no agproc-managed service is running)"@
        }),
{
}

} // verus!

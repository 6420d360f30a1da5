//! What holds of the guide and of what it says of a project.

use vstd::prelude::*;
use vstd::string::*;
use vstd::utf8::*;

use crate::cmd::guide;
use crate::cmd::skills;
use crate::cmd::skills::{ServiceInfo, Subject};
use crate::config;
use crate::config::{Config, LoadedConfig, ProbeTarget, Service, Settings};
use crate::paths;
use crate::paths::Project;
use crate::scan;
use crate::text;
use crate::text_laws;

verus! {

/// What is reported of a service are its own values: its name, its commands, what
/// is probed, where it runs and where its logs lie.
pub proof fn law_reports_carry_the_values_of_the_service(service: Service, root: Seq<u8>)
    ensures
        ({
            let info = skills::info_of(service, root);
            let target = config::service_target(service);
            &&& info.name == service.name@
            &&& info.build_cmd is Some <==> service.build_cmd is Some
            &&& service.build_cmd matches Some(cmd) ==> info.build_cmd == Some(text::texts(cmd.0@))
            &&& info.run_cmd == text::texts(service.run_cmd.0@)
            &&& info.probe_kind == config::target_kind(target)
            &&& info.probe_target == config::target_text(target)
            &&& service.cwd is None ==> info.cwd == paths::shown(root)
            &&& service.cwd matches Some(cwd) ==> info.cwd == paths::shown(
                paths::path_join(root, encode_utf8(cwd@)),
            )
            &&& info.log_stdout == paths::shown(
                paths::runtime_file(root, "logs"@, service.name@, ".stdout.log"@),
            )
            &&& info.log_stderr == paths::shown(
                paths::runtime_file(root, "logs"@, service.name@, ".stderr.log"@),
            )
        }),
{
}

/// A report is seen as what it holds.
pub proof fn law_reports_are_seen_as_they_are(infos: Seq<ServiceInfo>, i: int)
    ensures
        skills::infos_view(infos).len() == infos.len(),
        0 <= i < infos.len() ==> {
            let seen = skills::infos_view(infos)[i];
            let info = infos[i];
            &&& seen.name == info.name@
            &&& seen.build_cmd is Some <==> info.build_cmd is Some
            &&& info.build_cmd matches Some(args) ==> seen.build_cmd == Some(text::texts(args@))
            &&& seen.run_cmd == text::texts(info.run_cmd@)
            &&& seen.probe_kind == info.probe_kind@
            &&& seen.probe_target == info.probe_target@
            &&& seen.cwd == info.cwd@
            &&& seen.log_stdout == info.log_stdout@
            &&& seen.log_stderr == info.log_stderr@
        },
{
}

/// The table has a line for each service, in order: its name, its build-cmd and its
/// run-cmd as they stand in the configuration, what is probed, and its log.
pub proof fn law_the_table_has_a_line_for_each_service(services: Seq<Service>, service: Service)
    ensures
        skills::service_lines(Seq::empty()).len() == 0,
        ({
            let target = config::service_target(service);
            let build = match service.build_cmd {
                Some(cmd) => "`"@ + config::array_literal(text::texts(cmd.0@)) + "`"@,
                None => "(none)"@,
            };
            let probe = if target == ProbeTarget::NoProbe {
                "process stays alive"@
            } else {
                "`"@ + config::target_text(target) + "`"@
            };
            skills::service_lines(services.push(service)) == skills::service_lines(services) + (
            "| `"@ + service.name@ + "` | "@ + build + " | `"@ + config::array_literal(
                text::texts(service.run_cmd.0@),
            ) + "` | "@ + probe + " | `.agproc/logs/"@ + service.name@ + ".stdout.log` |\n"@)
        }),
{
    assert(services.push(service).drop_last() =~= services);
}

/// With one service the workflow names none. With any other number it names each of
/// them twice, in order: to be started and to be restarted.
pub proof fn law_workflows_name_every_service(names: Seq<Seq<char>>, head: Seq<char>, i: int)
    ensures
        names.len() == 1 ==> skills::workflow(names) == skills::SINGLE_WORKFLOW@,
        names.len() != 1 ==> skills::workflow(names) == "1. `agproc start` starts all of "@
            + text::joined(skills::ticked_names(""@, names), ", "@)
            + " in parallel; it is safe to repeat.\n2. after editing code, restart only what changed: "@
            + text::joined(skills::ticked_names("agproc restart "@, names), ", "@)
            + ".\n3. if the exit code is not 0: `agproc ps` then `agproc logs <service> --tail 80`.\n4. `agproc stop` (or `agproc stop <service>`) when you are done.\n"@,
        skills::ticked_names(head, names).len() == names.len(),
        0 <= i < names.len() ==> skills::ticked_names(head, names)[i] == "`"@ + head + names[i]
            + "`"@,
{
}

/// The notes tell of a cap on the logs, in whole mebibytes, and of a port check that
/// is off; nothing else is worth a note.
pub proof fn law_notes_tell_of_unusual_settings(settings: Settings, mib: nat, rest: nat)
    requires
        settings.log_max_bytes == 1_048_576 * mib + rest,
        rest < 1_048_576,
    ensures
        ({
            let cap = "- log files rotate into `<name>.1` past "@ + text::decimal(mib)
                + " MiB\n"@;
            let off = "- port ownership checks are disabled in `[settings] port-check = false`\n"@;
            let notes = skills::settings_notes(settings);
            &&& settings.log_max_bytes > 0 && settings.port_check ==> notes == cap
            &&& settings.log_max_bytes > 0 && !settings.port_check ==> notes == cap + off
            &&& settings.log_max_bytes == 0 && !settings.port_check ==> notes == off
            &&& settings.log_max_bytes == 0 && settings.port_check ==> notes.len() == 0
        }),
{
    let notes = skills::settings_notes(settings);
    let cap = "- log files rotate into `<name>.1` past "@ + text::decimal(mib) + " MiB\n"@;
    let off = "- port ownership checks are disabled in `[settings] port-check = false`\n"@;
    assert(settings.log_max_bytes / 1_048_576 == mib);
    if settings.log_max_bytes > 0 && settings.port_check {
        assert(notes =~= cap);
    }
    if settings.log_max_bytes == 0 && !settings.port_check {
        assert(notes =~= off);
    }
}

/// The section of a project names its root, its configuration and the version, and
/// holds the table, the workflow and the notes, if there are any, in this order.
pub proof fn law_sections_describe_the_project(
    root: Seq<u8>,
    config_path: Seq<u8>,
    config: Config,
)
    ensures
        ({
            let notes = skills::settings_notes(config.settings);
            let section = skills::section_text(root, config_path, config);
            let body = "## This project\n\n- project root: `"@ + paths::shown(root)
                + "`\n- config: `"@ + paths::shown(config_path) + "`\n- agproc: `"@ + "0.1.0"@
                + "`\n\n| service | build-cmd | run-cmd | probe | logs |\n|---|---|---|---|---|\n"@
                + skills::service_lines(config.services@) + "\nWorkflow for this project:\n\n"@
                + skills::workflow(config::names(config.services@));
            &&& notes.len() == 0 ==> section == body
            &&& notes.len() > 0 ==> section == body + ("\nNotes:\n"@ + notes)
        }),
{
    let notes = skills::settings_notes(config.settings);
    let section = skills::section_text(root, config_path, config);
    let body = "## This project\n\n- project root: `"@ + paths::shown(root) + "`\n- config: `"@
        + paths::shown(config_path) + "`\n- agproc: `"@ + "0.1.0"@
        + "`\n\n| service | build-cmd | run-cmd | probe | logs |\n|---|---|---|---|---|\n"@
        + skills::service_lines(config.services@) + "\nWorkflow for this project:\n\n"@
        + skills::workflow(config::names(config.services@));
    if notes.len() == 0 {
        assert(section =~= body);
    }
}

/// A project that cannot be read is told with what is wrong with it, and without a
/// project the guide says how to begin one.
pub proof fn law_sections_fit_what_was_found(
    project: Project,
    problem: &str,
    loaded: LoadedConfig,
)
    ensures
        skills::subject_section(Subject::Nowhere) == skills::GENERIC_SECTION@,
        skills::subject_section(Subject::Broken { project: &project, problem })
            == "## This project\n\n`"@ + paths::shown(project.config_path.bytes@)
            + "` could not be read, so agproc cannot describe the services here:\n\n```\n"@
            + problem@
            + "\n```\n\nFix the file (or run `agproc init`) and call `agproc skills` again.\n"@,
        skills::subject_section(Subject::Found { project: &project, loaded: &loaded })
            == skills::section_text(
            project.root.bytes@,
            project.config_path.bytes@,
            loaded.config,
        ),
{
}

/// The section stands where the guide has its marker, and what stands before and
/// after it stays.
pub proof fn law_the_section_takes_the_place_of_the_marker(
    before: Seq<char>,
    after: Seq<char>,
    section: Seq<char>,
)
    requires
        forall|i: int|
            0 <= i < before.len() ==> !scan::starts(
                #[trigger] (before + "<!-- agproc:project -->"@ + after).skip(i),
                "<!-- agproc:project -->"@,
            ),
        forall|i: int|
            0 <= i < after.len() ==> !scan::starts(
                #[trigger] after.skip(i),
                "<!-- agproc:project -->"@,
            ),
    ensures
        scan::replaced(
            before + "<!-- agproc:project -->"@ + after,
            guide::PROJECT_MARKER@,
            section,
        ) == before + section + after,
{
    reveal_strlit("<!-- agproc:project -->");
    let marker = "<!-- agproc:project -->"@;
    text_laws::law_replacing_starts_at_the_first_place(before, marker, section, after);
    text_laws::law_replacing_leaves_other_text_alone(after, marker, section);
}

} // verus!

//! `agproc skills` — the agent-facing guide, specialised for this project.
//!
//! The guide gets a generated section describing this project's services, so the
//! agent sees the real commands instead of a generic tutorial.

use vstd::prelude::*;
use vstd::string::*;

use crate::config;
use crate::config::{Config, LoadedConfig, ProbeTarget, Service, Settings};
use crate::paths;
use crate::paths::Project;
use crate::scan;
use crate::text;

pub use crate::cmd::guide::{CORE, PROJECT_MARKER};

verus! {

pub struct Request {
    pub json: bool,
}

pub struct SkillDoc {
    pub name: String,
    pub content: String,
}

pub struct ServiceInfo {
    pub name: String,
    /// The argv array, when there is a build step.
    pub build_cmd: Option<Vec<String>>,
    /// The argv array.
    pub run_cmd: Vec<String>,
    pub probe_kind: String,
    pub probe_target: String,
    pub cwd: String,
    pub log_stdout: String,
    pub log_stderr: String,
}

pub struct Report {
    pub version: String,
    pub root: Option<String>,
    pub config: Option<String>,
    pub services: Vec<ServiceInfo>,
    pub skill: SkillDoc,
}

/// A service as plain values.
pub struct ServiceInfoView {
    pub name: Seq<char>,
    pub build_cmd: Option<Seq<Seq<char>>>,
    pub run_cmd: Seq<Seq<char>>,
    pub probe_kind: Seq<char>,
    pub probe_target: Seq<char>,
    pub cwd: Seq<char>,
    pub log_stdout: Seq<char>,
    pub log_stderr: Seq<char>,
}

impl View for ServiceInfo {
    type V = ServiceInfoView;

    open spec fn view(&self) -> ServiceInfoView {
        ServiceInfoView {
            name: self.name@,
            build_cmd: match self.build_cmd {
                Some(args) => Some(text::texts(args@)),
                None => None,
            },
            run_cmd: text::texts(self.run_cmd@),
            probe_kind: self.probe_kind@,
            probe_target: self.probe_target@,
            cwd: self.cwd@,
            log_stdout: self.log_stdout@,
            log_stderr: self.log_stderr@,
        }
    }
}

/// What is reported of a service.
pub open spec fn info_of(service: Service, root: Seq<u8>) -> ServiceInfoView {
    ServiceInfoView {
        name: service.name@,
        build_cmd: match service.build_cmd {
            Some(cmd) => Some(text::texts(cmd.0@)),
            None => None,
        },
        run_cmd: text::texts(service.run_cmd.0@),
        probe_kind: config::target_kind(config::service_target(service)),
        probe_target: config::target_text(config::service_target(service)),
        cwd: paths::shown(
            match service.cwd {
                Some(cwd) => paths::path_join(root, vstd::utf8::encode_utf8(cwd@)),
                None => root,
            },
        ),
        log_stdout: paths::shown(
            paths::runtime_file(root, "logs"@, service.name@, ".stdout.log"@),
        ),
        log_stderr: paths::shown(
            paths::runtime_file(root, "logs"@, service.name@, ".stderr.log"@),
        ),
    }
}

pub open spec fn infos_view(infos: Seq<ServiceInfo>) -> Seq<ServiceInfoView> {
    infos.map_values(|info: ServiceInfo| info@)
}

fn copy_texts(list: &Vec<String>) -> (out: Vec<String>)
    ensures
        text::texts(out@) == text::texts(list@),
{
    let mut out: Vec<String> = Vec::new();
    for i in 0..list.len()
        invariant
            out@.len() == i,
            forall|k: int| 0 <= k < i ==> (#[trigger] out@[k])@ == list@[k]@,
    {
        out.push(list[i].clone());
    }
    assert(text::texts(out@) =~= text::texts(list@));
    out
}

/// The services of a project, for reading by programs.
pub fn service_infos(project: &Project, config: &Config) -> (out: Vec<ServiceInfo>)
    ensures
        infos_view(out@) == config.services@.map_values(
            |service: Service| info_of(service, project.root@),
        ),
{
    let ghost all = config.services@.map_values(
        |service: Service| info_of(service, project.root@),
    );
    let mut out: Vec<ServiceInfo> = Vec::new();
    for i in 0..config.services.len()
        invariant
            all == config.services@.map_values(
                |service: Service| info_of(service, project.root@),
            ),
            out@.len() == i,
            forall|k: int| 0 <= k < i ==> (#[trigger] out@[k])@ == all[k],
    {
        let service = &config.services[i];
        let target = service.target();
        let build_cmd: Option<Vec<String>> = match &service.build_cmd {
            Some(cmd) => Some(copy_texts(&cmd.0)),
            None => None,
        };
        let info = ServiceInfo {
            name: service.name.clone(),
            build_cmd,
            run_cmd: copy_texts(&service.run_cmd.0),
            probe_kind: target.kind_str().to_string(),
            probe_target: target.describe(),
            cwd: service.cwd_path(project).display(),
            log_stdout: project.log_stdout(service.name.as_str()).display(),
            log_stderr: project.log_stderr(service.name.as_str()).display(),
        };
        assert(info@ == info_of(*service, project.root@));
        out.push(info);
    }
    assert(infos_view(out@) =~= all);
    out
}

// -------------------------------------------------------------------- section
/// `` `<s>` ``.
pub open spec fn ticked(s: Seq<char>) -> Seq<char> {
    "`"@ + s + "`"@
}

/// The line of a service in the table.
pub open spec fn service_line(service: Service) -> Seq<char> {
    let target = config::service_target(service);
    "| `"@ + service.name@ + "` | "@ + (match service.build_cmd {
        Some(cmd) => ticked(config::array_literal(text::texts(cmd.0@))),
        None => "(none)"@,
    }) + " | `"@ + config::array_literal(text::texts(service.run_cmd.0@)) + "` | "@ + (
    match target {
        ProbeTarget::NoProbe => "process stays alive"@,
        _ => ticked(config::target_text(target)),
    }) + " | `.agproc/logs/"@ + service.name@ + ".stdout.log` |\n"@
}

/// The lines of the services in the table.
pub open spec fn service_lines(services: Seq<Service>) -> Seq<char>
    decreases services.len(),
{
    if services.len() == 0 {
        Seq::empty()
    } else {
        service_lines(services.drop_last()) + service_line(services.last())
    }
}

/// What to do with one service.
pub const SINGLE_WORKFLOW: &'static str =
    "1. `agproc start` (safe to repeat: it reports `ALREADY RUNNING` instead of restarting).\n2. after editing code: `agproc restart`.\n3. if the exit code is not 0: `agproc logs --tail 80`.\n4. `agproc stop` when you are done.\n";

/// Each name between ticks, after `head`.
pub open spec fn ticked_names(head: Seq<char>, names: Seq<Seq<char>>) -> Seq<Seq<char>> {
    names.map_values(|name: Seq<char>| "`"@ + head + name + "`"@)
}

/// What to do with the services.
pub open spec fn workflow(names: Seq<Seq<char>>) -> Seq<char> {
    if names.len() == 1 {
        SINGLE_WORKFLOW@
    } else {
        "1. `agproc start` starts all of "@ + text::joined(ticked_names(""@, names), ", "@)
            + " in parallel; it is safe to repeat.\n2. after editing code, restart only what changed: "@
            + text::joined(ticked_names("agproc restart "@, names), ", "@)
            + ".\n3. if the exit code is not 0: `agproc ps` then `agproc logs <service> --tail 80`.\n4. `agproc stop` (or `agproc stop <service>`) when you are done.\n"@
    }
}

/// The lines about settings.
pub open spec fn settings_notes(settings: Settings) -> Seq<char> {
    (if settings.log_max_bytes > 0 {
        "- log files rotate into `<name>.1` past "@ + text::decimal(
            (settings.log_max_bytes / 1_048_576) as nat,
        ) + " MiB\n"@
    } else {
        Seq::empty()
    }) + (if !settings.port_check {
        "- port ownership checks are disabled in `[settings] port-check = false`\n"@
    } else {
        Seq::empty()
    })
}

/// The section of a project whose configuration could be read.
pub open spec fn section_text(root: Seq<u8>, config_path: Seq<u8>, config: Config) -> Seq<char> {
    "## This project\n\n- project root: `"@ + paths::shown(root) + "`\n- config: `"@
        + paths::shown(config_path) + "`\n- agproc: `"@ + paths::VERSION@
        + "`\n\n| service | build-cmd | run-cmd | probe | logs |\n|---|---|---|---|---|\n"@
        + service_lines(config.services@) + "\nWorkflow for this project:\n\n"@ + workflow(
        config::names(config.services@),
    ) + (if settings_notes(config.settings).len() > 0 {
        "\nNotes:\n"@ + settings_notes(config.settings)
    } else {
        Seq::empty()
    })
}

fn push_service_line(out: &mut String, service: &Service)
    ensures
        final(out)@ == old(out)@ + service_line(*service),
{
    let target = service.target();
    let mut build = String::new();
    assert(build@ =~= Seq::<char>::empty());
    match &service.build_cmd {
        Some(cmd) => {
            build.append("`");
            build.append(cmd.display().as_str());
            build.append("`");
            assert(build@ =~= ticked(config::array_literal(text::texts(cmd.0@))));
        },
        None => build.append("(none)"),
    }
    let mut probe = String::new();
    assert(probe@ =~= Seq::<char>::empty());
    match &target {
        ProbeTarget::NoProbe => probe.append("process stays alive"),
        _ => {
            probe.append("`");
            probe.append(target.describe().as_str());
            probe.append("`");
        },
    }
    let mut line = "| `".to_string();
    line.append(service.name.as_str());
    line.append("` | ");
    line.append(build.as_str());
    line.append(" | `");
    line.append(service.run_cmd.display().as_str());
    line.append("` | ");
    line.append(probe.as_str());
    line.append(" | `.agproc/logs/");
    line.append(service.name.as_str());
    line.append(".stdout.log` |\n");
    assert(line@ =~= service_line(*service));
    out.append(line.as_str());
}

fn tick_names(head: &str, names: &Vec<String>) -> (out: Vec<String>)
    ensures
        text::texts(out@) == ticked_names(head@, text::texts(names@)),
{
    let mut out: Vec<String> = Vec::new();
    for i in 0..names.len()
        invariant
            out@.len() == i,
            forall|k: int|
                0 <= k < i ==> (#[trigger] out@[k])@ == "`"@ + head@ + names@[k]@ + "`"@,
    {
        let mut item = "`".to_string();
        item.append(head);
        item.append(names[i].as_str());
        item.append("`");
        out.push(item);
    }
    assert(text::texts(out@) =~= ticked_names(head@, text::texts(names@)));
    out
}

/// The section of a project whose configuration could be read.
pub fn project_section(project: &Project, loaded: &LoadedConfig) -> (out: String)
    ensures
        out@ == section_text(project.root@, project.config_path@, loaded.config),
{
    let config = &loaded.config;
    let ghost services = config.services@;
    let mut rows = String::new();
    assert(rows@ =~= service_lines(services.take(0)));
    for i in 0..config.services.len()
        invariant
            services == config.services@,
            rows@ == service_lines(services.take(i as int)),
    {
        push_service_line(&mut rows, &config.services[i]);
        assert(services.take(i + 1).drop_last() =~= services.take(i as int));
    }
    assert(services.take(services.len() as int) =~= services);

    let names = config.service_names();
    assert(names@.len() == text::texts(names@).len());
    let mut flow = String::new();
    assert(flow@ =~= Seq::<char>::empty());
    if names.len() == 1 {
        flow.append(SINGLE_WORKFLOW);
    } else {
        flow.append("1. `agproc start` starts all of ");
        flow.append(text::join(&tick_names("", &names), ", ").as_str());
        flow.append(
            " in parallel; it is safe to repeat.\n2. after editing code, restart only what changed: ",
        );
        flow.append(text::join(&tick_names("agproc restart ", &names), ", ").as_str());
        flow.append(
            ".\n3. if the exit code is not 0: `agproc ps` then `agproc logs <service> --tail 80`.\n4. `agproc stop` (or `agproc stop <service>`) when you are done.\n",
        );
    }
    assert(flow@ =~= workflow(config::names(services)));

    let mut notes = String::new();
    assert(notes@ =~= Seq::<char>::empty());
    if config.settings.log_max_bytes > 0 {
        notes.append("- log files rotate into `<name>.1` past ");
        text::push_u64(&mut notes, config.settings.log_max_bytes / 1_048_576);
        notes.append(" MiB\n");
    }
    if !config.settings.port_check {
        notes.append("- port ownership checks are disabled in `[settings] port-check = false`\n");
    }
    assert(notes@ =~= settings_notes(config.settings));

    let mut out = "## This project\n\n- project root: `".to_string();
    out.append(project.root.display().as_str());
    out.append("`\n- config: `");
    out.append(project.config_path.display().as_str());
    out.append("`\n- agproc: `");
    out.append(paths::VERSION);
    out.append("`\n\n| service | build-cmd | run-cmd | probe | logs |\n|---|---|---|---|---|\n");
    out.append(rows.as_str());
    out.append("\nWorkflow for this project:\n\n");
    out.append(flow.as_str());
    if text::chars_of(notes.as_str()).len() > 0 {
        let mut tail = "\nNotes:\n".to_string();
        tail.append(notes.as_str());
        out.append(tail.as_str());
    }
    assert(out@ =~= section_text(project.root@, project.config_path@, *config));
    out
}

/// The section of a project whose configuration could not be read.
pub open spec fn broken_text(config_path: Seq<u8>, problem: Seq<char>) -> Seq<char> {
    "## This project\n\n`"@ + paths::shown(config_path)
        + "` could not be read, so agproc cannot describe the services here:\n\n```\n"@ + problem
        + "\n```\n\nFix the file (or run `agproc init`) and call `agproc skills` again.\n"@
}

/// The section where there is no project.
pub const GENERIC_SECTION: &'static str =
    "## This project\n\nNo `agproc.toml` was found in this directory or any parent directory, so this is\nthe generic guide. Run `agproc init` in the project root to create a template, then\n`agproc start` to bring the services up.\n";

/// What is known of the project that the guide is printed for.
pub enum Subject<'a> {
    /// There is none.
    Nowhere,
    /// Its configuration could not be read, and why.
    Broken { project: &'a Project, problem: &'a str },
    Found { project: &'a Project, loaded: &'a LoadedConfig },
}

/// The section for a project.
pub open spec fn subject_section(subject: Subject) -> Seq<char> {
    match subject {
        Subject::Nowhere => GENERIC_SECTION@,
        Subject::Broken { project, problem } => broken_text(project.config_path@, problem@),
        Subject::Found { project, loaded } => section_text(
            project.root@,
            project.config_path@,
            loaded.config,
        ),
    }
}

/// The guide for a project: `core` with the section for the project in it.
pub fn guide_for(core: &str, subject: &Subject) -> (out: String)
    ensures
        out@ == scan::replaced(core@, PROJECT_MARKER@, subject_section(*subject)),
{
    let section = match subject {
        Subject::Nowhere => GENERIC_SECTION.to_string(),
        Subject::Broken { project, problem } => {
            let mut text = "## This project\n\n`".to_string();
            text.append(project.config_path.display().as_str());
            text.append(
                "` could not be read, so agproc cannot describe the services here:\n\n```\n",
            );
            text.append(problem);
            text.append(
                "\n```\n\nFix the file (or run `agproc init`) and call `agproc skills` again.\n",
            );
            text
        },
        Subject::Found { project, loaded } => project_section(project, loaded),
    };
    proof {
        reveal_strlit("<!-- agproc:project -->");
    }
    scan::replace(core, PROJECT_MARKER, section.as_str())
}

/// The report of `agproc skills --json`.
pub fn report(core: &str, subject: &Subject) -> (out: Report)
    ensures
        out.version@ == paths::VERSION@,
        out.skill.name@ == "core"@,
        out.skill.content@ == scan::replaced(core@, PROJECT_MARKER@, subject_section(*subject)),
        match *subject {
            Subject::Nowhere => out.root is None && out.config is None && out.services@.len() == 0,
            Subject::Broken { project, .. } => {
                &&& out.root matches Some(root) && root@ == paths::shown(project.root@)
                &&& out.config matches Some(path) && path@ == paths::shown(project.config_path@)
                &&& out.services@.len() == 0
            },
            Subject::Found { project, loaded } => {
                &&& out.root matches Some(root) && root@ == paths::shown(project.root@)
                &&& out.config matches Some(path) && path@ == paths::shown(project.config_path@)
                &&& infos_view(out.services@) == loaded.config.services@.map_values(
                    |service: Service| info_of(service, project.root@),
                )
            },
        },
{
    let content = guide_for(core, subject);
    let (root, path, services): (Option<String>, Option<String>, Vec<ServiceInfo>) = match subject {
        Subject::Nowhere => (None, None, Vec::new()),
        Subject::Broken { project, .. } => (
            Some(project.root.display()),
            Some(project.config_path.display()),
            Vec::new(),
        ),
        Subject::Found { project, loaded } => (
            Some(project.root.display()),
            Some(project.config_path.display()),
            service_infos(project, &loaded.config),
        ),
    };
    Report {
        version: paths::VERSION.to_string(),
        root,
        config: path,
        services,
        skill: SkillDoc { name: "core".to_string(), content },
    }
}

} // verus!

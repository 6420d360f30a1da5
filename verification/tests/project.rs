use agproc::cli::{
    dispatch, Cli, Command, Failure, InitArgs, LogsArgs, Plan, PsArgs, RunnerArgs, SkillsArgs,
    StartArgs, StreamArg, TargetArgs,
};
use agproc::cmd::init::{
    binary_name, cargo_target, ensure_gitignore, node_scripts, permit, render, script_names, Entry,
};
use agproc::cmd::logs::Stream;
use agproc::cmd::skills::{
    guide_for, project_section, report, service_infos, Subject, CORE, PROJECT_MARKER,
};
use agproc::config::{
    default_host, default_scheme, Cmd, Config, HttpGet, LoadedConfig, Probe, Service, Settings,
    TcpConnect,
};
use agproc::envmap::EnvMap;
use agproc::exit;
use agproc::lock::Lock;
use agproc::paths::{absolute, explicit_config, version_body, FsPath, Lookup, Project};
use agproc::proc::{exit_code_of, read_available, spawn, spawn_failed, ReadErrno, ReadOutcome};
use agproc::util::{fnv1a64, format_duration_ms, iso8601, split_ms, temp_name};

fn path(s: &str) -> FsPath {
    FsPath::from_text(s)
}

fn project() -> Project {
    Project {
        root: path("/work/demo"),
        config_path: path("/work/demo/agproc.toml"),
    }
}

fn service(name: &str, build: Option<&[&str]>, run: &[&str], probe: Option<Probe>) -> Service {
    let cmd = |args: &[&str]| Cmd(args.iter().map(|s| s.to_string()).collect());
    Service {
        name: name.to_string(),
        cwd: None,
        env: EnvMap::new(),
        env_file: None,
        build_cmd: build.map(cmd),
        build_timeout_seconds: None,
        run_cmd: cmd(run),
        stop_timeout_seconds: None,
        probe,
    }
}

fn loaded(services: Vec<Service>) -> LoadedConfig {
    LoadedConfig {
        config: Config {
            settings: Settings::default(),
            services,
        },
        hash: String::new(),
    }
}

fn backend_and_frontend() -> LoadedConfig {
    loaded(vec![
        service(
            "backend",
            Some(&["cargo", "build"]),
            &["./target/debug/api"],
            Some(Probe {
                http_get: Some(HttpGet {
                    scheme: default_scheme(),
                    host: default_host(),
                    port: 3000,
                    path: "/healthz".to_string(),
                }),
                ..Probe::default()
            }),
        ),
        service(
            "frontend",
            None,
            &["pnpm", "preview"],
            Some(Probe {
                tcp_connect: Some(TcpConnect {
                    host: default_host(),
                    port: 5173,
                }),
                ..Probe::default()
            }),
        ),
    ])
}

// --------------------------------------------------------------------- skills
#[test]
fn project_section_lists_real_services() {
    let section = project_section(&project(), &backend_and_frontend());
    assert!(section.contains(r#"`["cargo", "build"]`"#), "{section}");
    assert!(section.contains(r#"`["./target/debug/api"]`"#), "{section}");
    assert!(
        section.contains("http://127.0.0.1:3000/healthz"),
        "{section}"
    );
    assert!(section.contains("`agproc restart frontend`"), "{section}");
    assert!(
        section.contains(".agproc/logs/backend.stdout.log"),
        "{section}"
    );
    assert_eq!(
        section,
        "## This project\n\n- project root: `/work/demo`\n- config: `/work/demo/agproc.toml`\n- agproc: `0.1.0`\n\n\
| service | build-cmd | run-cmd | probe | logs |\n|---|---|---|---|---|\n\
| `backend` | `[\"cargo\", \"build\"]` | `[\"./target/debug/api\"]` | `http://127.0.0.1:3000/healthz` | `.agproc/logs/backend.stdout.log` |\n\
| `frontend` | (none) | `[\"pnpm\", \"preview\"]` | `tcp 127.0.0.1:5173` | `.agproc/logs/frontend.stdout.log` |\n\
\nWorkflow for this project:\n\n\
1. `agproc start` starts all of `backend`, `frontend` in parallel; it is safe to repeat.\n\
2. after editing code, restart only what changed: `agproc restart backend`, `agproc restart frontend`.\n\
3. if the exit code is not 0: `agproc ps` then `agproc logs <service> --tail 80`.\n\
4. `agproc stop` (or `agproc stop <service>`) when you are done.\n\
\nNotes:\n- log files rotate into `<name>.1` past 32 MiB\n"
    );
}

#[test]
fn settings_without_notes_leave_none() {
    let mut single = loaded(vec![service("api", None, &["sleep", "1"], None)]);
    single.config.settings.log_max_bytes = 0;
    let section = project_section(&project(), &single);
    assert!(!section.contains("Notes:"), "{section}");
    assert!(section.contains("| process stays alive |"), "{section}");
    assert!(
        section.ends_with("4. `agproc stop` when you are done.\n"),
        "{section}"
    );
    single.config.settings.port_check = false;
    let section = project_section(&project(), &single);
    assert!(
        section.ends_with(
            "\nNotes:\n- port ownership checks are disabled in `[settings] port-check = false`\n"
        ),
        "{section}"
    );
}

#[test]
fn core_guide_has_the_marker_and_key_contract() {
    assert!(
        CORE.contains(PROJECT_MARKER),
        "marker missing from the guide"
    );
    for needle in [
        "===== ALREADY RUNNING",
        "agproc restart",
        "--timeout-seconds",
        "Exit codes",
    ] {
        assert!(CORE.contains(needle), "guide is missing {needle}");
    }
}

#[test]
fn json_report_carries_services_and_content() {
    let loaded = loaded(vec![service("api", None, &["sleep", "1"], None)]);
    let infos = service_infos(&project(), &loaded.config);
    assert_eq!(infos.len(), 1);
    assert_eq!(infos[0].name, "api");
    assert_eq!(infos[0].probe_kind, "none");
    assert!(infos[0].log_stdout.ends_with("api.stdout.log"));
    assert_eq!(infos[0].run_cmd, ["sleep", "1"]);
    assert_eq!(infos[0].build_cmd, None);
    assert_eq!(infos[0].cwd, "/work/demo");

    let here = project();
    let report = report(
        CORE,
        &Subject::Found {
            project: &here,
            loaded: &loaded,
        },
    );
    assert_eq!(report.version, "0.1.0");
    assert_eq!(report.root.as_deref(), Some("/work/demo"));
    assert_eq!(report.config.as_deref(), Some("/work/demo/agproc.toml"));
    assert_eq!(report.services.len(), 1);
    assert_eq!(report.skill.name, "core");
    assert!(report.skill.content.contains("| `api` | (none) |"));
    assert!(!report.skill.content.contains(PROJECT_MARKER));
}

#[test]
fn the_guide_works_anywhere() {
    let guide = guide_for("<A <!-- agproc:project --> B", &Subject::Nowhere);
    assert!(guide.starts_with("<A ## This project\n\nNo `agproc.toml` was found"));
    assert!(guide.ends_with("to bring the services up.\n B"));
    let here = project();
    let guide = guide_for(
        PROJECT_MARKER,
        &Subject::Broken {
            project: &here,
            problem: "bad",
        },
    );
    assert_eq!(
        guide,
        "## This project\n\n`/work/demo/agproc.toml` could not be read, so agproc cannot describe the services here:\n\n```\nbad\n```\n\nFix the file (or run `agproc init`) and call `agproc skills` again.\n"
    );
}

// ----------------------------------------------------------------------- init
#[test]
fn init_writes_config_and_gitignore() {
    let binary = cargo_target("[package]\nname = \"demo-app\"\nversion = \"0.1.0\"\n");
    let scripts = node_scripts(r#"{"scripts":{"build":"x","preview":"y"}}"#);
    let config = render(binary.as_deref(), scripts.as_ref());
    assert!(
        config.contains("run-cmd = \"./target/debug/demo-app\""),
        "{config}"
    );
    assert!(config.contains("pnpm preview --port 5173"), "{config}");
    assert!(config.contains("tcp-connect"), "{config}");

    let gitignore = ensure_gitignore("").unwrap();
    assert!(gitignore.contains(".agproc/"), "{gitignore}");

    // Second run without --force must refuse.
    let file = path("/work/demo/agproc.toml");
    assert_eq!(permit(&file, false, false), Ok(()));
    let err = permit(&file, true, false).unwrap_err();
    assert!(err.contains("already exists"), "{err}");

    // --force rewrites; .gitignore must not get a duplicate entry.
    assert_eq!(permit(&file, true, true), Ok(()));
    assert_eq!(ensure_gitignore(&gitignore), None);
}

#[test]
fn init_without_project_files_emits_comments_only() {
    let config = render(None, None);
    assert!(config.contains("# [[service]]"), "{config}");
    assert!(!config.contains("\n[[service]]"), "{config}");
}

#[test]
fn templates_follow_the_scripts() {
    let with = |names: &[&str]| {
        let names: Vec<String> = names.iter().map(|s| s.to_string()).collect();
        render(None, Some(&names))
    };
    assert!(with(&["dev"]).contains("# run-cmd = \"pnpm dev --port 5173\"   # only if it does not watch files\n"));
    assert!(with(&[]).contains("# run-cmd = \"pnpm start\"\n"));
    assert!(!with(&["dev"]).contains("pnpm build"));
    assert!(with(&["build"]).contains("# build-cmd = \"pnpm build\"\n"));
    assert!(with(&["dev", "preview"]).contains("pnpm preview"));
}

#[test]
fn binaries_come_from_the_manifest() {
    assert_eq!(
        cargo_target("[package]\nname = \"lib\"\n\n[[bin]]\nname = \"tool\"\n").as_deref(),
        Some("tool")
    );
    assert_eq!(
        cargo_target("[package]\nname = \"lib\"\n\n[[bin]]\npath = \"x.rs\"\n").as_deref(),
        Some("lib")
    );
    assert_eq!(
        cargo_target("bin = [1]\n[package]\nname = \"lib\"\n").as_deref(),
        Some("lib")
    );
    assert_eq!(cargo_target("[workspace]\nmembers = []\n"), None);
    assert_eq!(cargo_target("[package]\nname = 3\n"), None);
    assert_eq!(cargo_target("not toml"), None);
    assert_eq!(
        binary_name(&vec![Entry {
            name: "package".to_string(),
            table: Some(vec![("name".to_string(), Some("x".to_string()))]),
            list: None
        }])
        .as_deref(),
        Some("x")
    );
}

#[test]
fn scripts_come_from_the_package() {
    assert_eq!(
        node_scripts(r#"{"name":"x","scripts":{"b":"1","a":"2"}}"#),
        Some(vec!["a".to_string(), "b".to_string()])
    );
    assert_eq!(node_scripts(r#"{"scripts":[]}"#), None);
    assert_eq!(node_scripts(r#"{"name":"x"}"#), None);
    assert_eq!(node_scripts("[]"), None);
    assert_eq!(node_scripts("{"), None);
    assert_eq!(
        script_names(vec![
            ("a".to_string(), None),
            ("scripts".to_string(), Some(vec!["z".to_string()]))
        ]),
        Some(vec!["z".to_string()])
    );
}

#[test]
fn gitignore_entries_are_added_once() {
    assert_eq!(
        ensure_gitignore("target").as_deref(),
        Some("target\n.agproc/\n")
    );
    assert_eq!(
        ensure_gitignore("target\n").as_deref(),
        Some("target\n.agproc/\n")
    );
    assert_eq!(ensure_gitignore("x\n  .agproc  \r\ny"), None);
    assert_eq!(ensure_gitignore("target\n.agproc/\n"), None);
}

// ------------------------------------------------------------------------ cli
fn cli(config: Option<&str>, command: Command) -> Cli {
    Cli {
        config: config.map(path),
        command,
    }
}

#[test]
fn command_lines_become_plans() {
    let plan = |cli: Cli| dispatch(cli, false, None, path("/cwd"));
    let services = || vec!["a".to_string()];
    match plan(cli(
        None,
        Command::Restart(StartArgs {
            services: services(),
            timeout_seconds: Some(9),
        }),
    )) {
        Ok(Plan::Start(request)) => {
            assert!(request.restart);
            assert_eq!(request.timeout, Some(9));
            assert_eq!(request.services, ["a"]);
        }
        _ => panic!("expected a restart"),
    }
    assert!(matches!(
        plan(cli(
            None,
            Command::Start(StartArgs {
                services: Vec::new(),
                timeout_seconds: None
            })
        )),
        Ok(Plan::Start(request)) if !request.restart
    ));
    assert!(matches!(
        plan(cli(None, Command::Stop(TargetArgs { services: services() }))),
        Ok(Plan::Stop(list)) if list == ["a"]
    ));
    assert!(matches!(
        plan(cli(
            None,
            Command::Ps(PsArgs {
                services: Vec::new(),
                json: true
            })
        )),
        Ok(Plan::Ps(request)) if request.json
    ));
    assert!(matches!(
        plan(cli(
            None,
            Command::Logs(LogsArgs {
                services: Vec::new(),
                tail: Some(3),
                follow: true,
                stream: StreamArg::Stderr
            })
        )),
        Ok(Plan::Logs(request)) if request.stream == Stream::Stderr && request.follow && request.tail == Some(3)
    ));
    assert!(matches!(
        plan(cli(None, Command::Skills(SkillsArgs { json: true }))),
        Ok(Plan::Skills(request)) if request.json
    ));
    match plan(cli(
        None,
        Command::Runner(RunnerArgs {
            service: "a".to_string(),
            generation: 2,
        }),
    )) {
        Err(failure) => {
            assert_eq!(failure.code, 1);
            assert_eq!(
                failure.report(),
                "===== ERROR =====\n__runner needs --config (it is an internal command)\n"
            );
        }
        Ok(_) => panic!("expected a failure"),
    }
    match plan(cli(
        Some("/p/agproc.toml"),
        Command::Runner(RunnerArgs {
            service: "a".to_string(),
            generation: 2,
        }),
    )) {
        Ok(Plan::Runner(args)) => {
            assert_eq!(args.config.display(), "/p/agproc.toml");
            assert_eq!(args.generation, 2);
        }
        _ => panic!("expected a runner"),
    }
}

#[test]
fn templates_go_where_the_config_is_asked_for() {
    let root = |config: Option<&str>, is_dir: bool, parent: Option<&str>| {
        match dispatch(
            cli(config, Command::Init(InitArgs { force: true })),
            is_dir,
            parent.map(path),
            path("/cwd"),
        ) {
            Ok(Plan::Init(args)) => args.root.display(),
            _ => panic!("expected init"),
        }
    };
    assert_eq!(root(None, false, None), "/cwd");
    assert_eq!(root(Some("/d"), true, Some("/")), "/d");
    assert_eq!(root(Some("/d/agproc.toml"), false, Some("/d")), "/d");
    assert_eq!(root(Some("agproc.toml"), false, Some("")), "/cwd");
}

#[test]
fn failures_carry_codes_and_titles() {
    let failure = Failure::config("bad".to_string());
    assert_eq!(failure.code, 3);
    assert_eq!(failure.report(), "===== CONFIG ERROR =====\nbad\n");
}

// ---------------------------------------------------------------------- paths
#[test]
fn the_nearest_config_wins() {
    let dirs = || vec![path("/a/b"), path("/a"), path("/")];
    let found = Project::discover(
        &Lookup::Upwards {
            dirs: dirs(),
            has_config: vec![false, true, true],
        },
        &path("/a/b"),
    )
    .unwrap();
    assert_eq!(found.root.display(), "/a");
    assert_eq!(found.config_path.display(), "/a/agproc.toml");
    let missing = Lookup::Upwards {
        dirs: dirs(),
        has_config: vec![false, false, false],
    };
    assert!(Project::discover_optional(&missing).is_none());
    match Project::discover(&missing, &path("/a/b")) {
        Err(message) => assert_eq!(
            message,
            "no agproc.toml found in /a/b or any parent directory\n(run `agproc init` to create one)"
        ),
        Ok(_) => panic!("there is none"),
    }
}

#[test]
fn an_explicit_config_must_exist() {
    let explicit = |is_file: bool| Lookup::Explicit {
        path: path("/x/agproc.toml"),
        is_file,
        parent: Some(path("/x")),
    };
    let found = Project::discover(&explicit(true), &path("agproc.toml")).unwrap();
    assert_eq!(found.root.display(), "/x");
    match Project::discover(&explicit(false), &path("nope.toml")) {
        Err(message) => assert_eq!(
            message,
            "config file not found: nope.toml\n(use -C/--config or AGPROC_CONFIG to point at agproc.toml)"
        ),
        Ok(_) => panic!("there is none"),
    }
    assert_eq!(explicit_config(&path("d"), true).display(), "d/agproc.toml");
    assert_eq!(explicit_config(&path("f.toml"), false).display(), "f.toml");
}

#[test]
fn paths_are_made_absolute() {
    let cwd = path("/cwd");
    let shown = |p: &str, canonical: Option<&str>, cwd: Option<&FsPath>| {
        absolute(&path(p), canonical.map(path), cwd).map(|p| p.display())
    };
    assert_eq!(
        shown("l", Some("/real"), None).as_deref(),
        Some("/real")
    );
    assert_eq!(shown("/x", None, None).as_deref(), Some("/x"));
    assert_eq!(shown("x", None, Some(&cwd)).as_deref(), Some("/cwd/x"));
    assert_eq!(shown("x", None, None), None);
}

#[test]
fn runtime_files_have_their_places() {
    let project = project();
    assert_eq!(project.agproc_dir().display(), "/work/demo/.agproc");
    assert_eq!(
        project.log_stdout("a").display(),
        "/work/demo/.agproc/logs/a.stdout.log"
    );
    assert_eq!(
        project.log_stderr("a").display(),
        "/work/demo/.agproc/logs/a.stderr.log"
    );
    assert_eq!(
        project.console_stdout("a").display(),
        "/work/demo/.agproc/tmp/a.console.stdout"
    );
    assert_eq!(
        project.console_stderr("a").display(),
        "/work/demo/.agproc/tmp/a.console.stderr"
    );
    assert_eq!(
        project.state_path("a").display(),
        "/work/demo/.agproc/state/a.json"
    );
    assert_eq!(
        project.stop_marker("a").display(),
        "/work/demo/.agproc/state/a.stop-requested"
    );
    assert_eq!(
        project.lock_path("a").display(),
        "/work/demo/.agproc/lock/a.lock"
    );
    assert_eq!(
        project.version_path().display(),
        "/work/demo/.agproc/version"
    );
    let dirs: Vec<String> = project.layout_dirs().iter().map(|d| d.display()).collect();
    assert_eq!(dirs[1], "/work/demo/.agproc/state");
    assert_eq!(dirs.len(), 4);
    // Bytes that are no text are shown with a replacement character.
    let odd = FsPath {
        bytes: vec![b'/', 0xff],
    };
    assert_eq!(odd.display(), "/\u{fffd}");
}

#[test]
fn services_share_no_runtime_file() {
    let project = project();
    let mut seen = Vec::new();
    for name in ["a", "a.json", "a.stdout", "b"] {
        for file in [
            project.log_stdout(name),
            project.log_stderr(name),
            project.console_stdout(name),
            project.console_stderr(name),
            project.state_path(name),
            project.stop_marker(name),
            project.lock_path(name),
        ] {
            let shown = file.display();
            assert!(!seen.contains(&shown), "{shown}");
            seen.push(shown);
        }
    }
}

#[test]
fn exit_codes_are_the_documented_ones() {
    assert_eq!(
        [
            exit::OK,
            exit::GENERIC,
            exit::CONFIG,
            exit::BUILD_FAILED,
            exit::RUN_FAILED,
            exit::PROBE_FAILED,
            exit::LOCKED,
            exit::SUPERSEDED
        ],
        [0, 1, 3, 4, 5, 6, 7, 8]
    );
}

#[test]
fn another_layout_is_warned_of() {
    let project = project();
    let body = version_body();
    assert_eq!(body, "layout = 1\nagproc = 0.1.0\n");
    assert_eq!(project.layout_warning(Some(&body)), None);
    assert_eq!(project.layout_warning(None), None);
    assert_eq!(project.layout_warning(Some("agproc = 9\nlayout = x\n")), None);
    assert_eq!(
        project.layout_warning(Some("agproc = 9\nlayout =  7 \nlayout = 1\n")).as_deref(),
        Some("/work/demo/.agproc was written by an incompatible agproc (layout 7, this build expects 1); history in it is ignored")
    );
}

// -------------------------------------------------------------- small helpers
#[test]
fn lock_files_name_their_holder() {
    assert_eq!(Lock { pid: 4711 }.line(), "4711\n");
    for pid in [0, 9, 10, 4711, u32::MAX] {
        assert_eq!(Lock::holder_pid(Some(&Lock { pid }.line())), Some(pid));
    }
    assert_eq!(Lock::holder_pid(Some("")), None);
    assert_eq!(Lock::holder_pid(Some("4294967296")), None);
    assert_eq!(Lock::holder_pid(None), None);
}

#[test]
fn children_are_planned() {
    let argv = |args: &[&str]| -> Vec<String> { args.iter().map(|s| s.to_string()).collect() };
    let mut env = EnvMap::new();
    env.insert("TERM".to_string(), "xterm".to_string());
    env.insert("A".to_string(), "1".to_string());
    let spec = spawn(&argv(&["sh", "-c", "x"]), &path("/p"), true, &env).unwrap();
    assert_eq!(spec.program, "sh");
    assert_eq!(spec.args, ["-c", "x"]);
    assert_eq!(spec.env.get("TERM"), Some("xterm"));
    assert_eq!(spec.env.get("NO_COLOR"), Some("1"));
    assert_eq!(spec.env.get("CLICOLOR"), Some("0"));
    assert_eq!(spec.env.get("CLICOLOR_FORCE"), Some("0"));
    assert_eq!(spec.env.len(), 5);
    assert_eq!(
        spawn(&Vec::new(), &path("/p"), true, &env).err().as_deref(),
        Some("empty command")
    );
    assert_eq!(
        spawn(&argv(&["x"]), &path("/p/web"), false, &env).err().as_deref(),
        Some("working directory does not exist: /p/web (service cwd is relative to the project root)")
    );
    assert_eq!(
        spawn_failed(&argv(&["x", "y"]), "gone"),
        "cannot spawn `x y`: gone"
    );
}

#[test]
fn exit_codes_and_reads_are_classified() {
    assert_eq!(exit_code_of(Some(3), None), 3);
    assert_eq!(exit_code_of(None, Some(9)), 137);
    assert_eq!(exit_code_of(None, None), 128);
    assert_eq!(exit_code_of(Some(0), Some(i32::MAX)), 0);
    assert!(matches!(read_available(Ok(Vec::new())), ReadOutcome::Eof));
    assert!(matches!(read_available(Ok(vec![1])), ReadOutcome::Data(bytes) if bytes == [1]));
    assert!(matches!(
        read_available(Err(ReadErrno::Again)),
        ReadOutcome::WouldBlock
    ));
    assert!(matches!(
        read_available(Err(ReadErrno::Interrupted)),
        ReadOutcome::WouldBlock
    ));
    assert!(matches!(
        read_available(Err(ReadErrno::Other)),
        ReadOutcome::Eof
    ));
}

#[test]
fn times_and_hashes_have_fixed_forms() {
    assert_eq!(format_duration_ms(850), "850ms");
    assert_eq!(format_duration_ms(12_000), "12s");
    assert_eq!(format_duration_ms(123_000), "2m3s");
    assert_eq!(format_duration_ms(3_720_000), "1h02m");
    assert_eq!(format_duration_ms(-5), "0ms");
    assert_eq!(fnv1a64(b""), 0xcbf2_9ce4_8422_2325);
    assert_eq!(fnv1a64(b"foobar"), 0x85944171f73967e8);
    assert_eq!(split_ms(-1), (-1, 999));
    assert_eq!(split_ms(1_500), (1, 500));
    assert_eq!(
        iso8601("2026-09-10T09:35:00", 5_007, "+0800"),
        "2026-09-10T09:35:00.007+0800"
    );
    assert_eq!(temp_name("api.json", 12), ".api.json.12.tmp");
}

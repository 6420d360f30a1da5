use agproc::cmd::{select_services, Prefix};
use agproc::config::{
    default_host, default_path, default_scheme, fingerprint, is_local_host, load, validate, Cmd,
    Config, HttpGet, Probe, ProbeTarget, Service, Settings, TcpConnect,
};
use agproc::envfile::EnvSource;
use agproc::envmap::EnvMap;
use agproc::paths::{FsPath, Project};

// ------------------------------------------------------------------- reading
fn text(value: &toml::Value) -> String {
    value.as_str().expect("a string").to_string()
}

fn number(value: &toml::Value) -> u64 {
    u64::try_from(value.as_integer().expect("a number")).expect("not negative")
}

fn argv(value: &toml::Value) -> Cmd {
    Cmd(value.as_array().expect("an array").iter().map(text).collect())
}

fn probe(table: &toml::Table) -> Probe {
    let mut out = Probe::default();
    for (key, value) in table {
        match key.as_str() {
            "http-get" => {
                let table = value.as_table().expect("a table");
                out.http_get = Some(HttpGet {
                    scheme: table.get("scheme").map(text).unwrap_or_else(default_scheme),
                    host: table.get("host").map(text).unwrap_or_else(default_host),
                    port: number(&table["port"]) as u16,
                    path: table.get("path").map(text).unwrap_or_else(default_path),
                });
            }
            "tcp-connect" => {
                let table = value.as_table().expect("a table");
                out.tcp_connect = Some(TcpConnect {
                    host: table.get("host").map(text).unwrap_or_else(default_host),
                    port: number(&table["port"]) as u16,
                });
            }
            "initial-delay-seconds" => out.initial_delay_seconds = number(value),
            "period-seconds" => out.period_seconds = number(value),
            "timeout-seconds" => out.timeout_seconds = number(value),
            "failure-threshold" => out.failure_threshold = number(value) as u32,
            other => panic!("unknown key {other}"),
        }
    }
    out
}

fn service(table: &toml::Table) -> Service {
    let mut out = plain("", &[]);
    for (key, value) in table {
        match key.as_str() {
            "name" => out.name = text(value),
            "run-cmd" => out.run_cmd = argv(value),
            "build-cmd" => out.build_cmd = Some(argv(value)),
            "env-file" => out.env_file = Some(text(value)),
            "env" => {
                for (name, value) in value.as_table().expect("a table") {
                    out.env.insert(name.clone(), text(value));
                }
            }
            "probe" => out.probe = Some(probe(value.as_table().expect("a table"))),
            other => panic!("unknown key {other}"),
        }
    }
    out
}

fn document(raw: &str) -> Config {
    let table: toml::Table = toml::from_str(raw).expect("TOML");
    let mut settings = Settings::default();
    if let Some(value) = table.get("settings") {
        for (key, value) in value.as_table().expect("a table") {
            match key.as_str() {
                "stop-timeout-seconds" => settings.stop_timeout_seconds = number(value),
                "port-check" => settings.port_check = value.as_bool().expect("a flag"),
                "log-max-bytes" => settings.log_max_bytes = number(value),
                other => panic!("unknown key {other}"),
            }
        }
    }
    let services = table
        .get("service")
        .map(|list| {
            list.as_array()
                .expect("an array")
                .iter()
                .map(|item| service(item.as_table().expect("a table")))
                .collect()
        })
        .unwrap_or_default();
    Config { settings, services }
}

fn parse(raw: &str) -> Result<Config, String> {
    let config = document(raw);
    validate(&config)?;
    Ok(config)
}

fn plain(name: &str, args: &[&str]) -> Service {
    Service {
        name: name.to_string(),
        cwd: None,
        env: EnvMap::new(),
        env_file: None,
        build_cmd: None,
        build_timeout_seconds: None,
        run_cmd: Cmd(args.iter().map(|arg| arg.to_string()).collect()),
        stop_timeout_seconds: None,
        probe: None,
    }
}

fn of(services: Vec<Service>) -> Config {
    Config {
        settings: Settings::default(),
        services,
    }
}

fn project(root: &str) -> Project {
    Project {
        root: FsPath::from_text(root),
        config_path: FsPath::from_text(root).join("agproc.toml"),
    }
}

// --------------------------------------------------------------------- tests
#[test]
fn parses_documented_example() {
    let config = parse(
        r#"
[[service]]
name = "backend"
build-cmd = ["cargo", "build"]
run-cmd = ["./target/debug/foo-backend"]
probe = {
  http-get = { scheme = "http", host = "127.0.0.1", path = "/healthz", port = 3100 },
  initial-delay-seconds = 1,
  period-seconds = 1,
  timeout-seconds = 2,
  failure-threshold = 3,
}
"#,
    )
    .unwrap();
    let service = config.service("backend").unwrap();
    assert_eq!(
        service.build_cmd.as_ref().unwrap().display(),
        r#"["cargo", "build"]"#
    );
    assert_eq!(service.target().describe(), "http://127.0.0.1:3100/healthz");
    assert_eq!(service.target().local_port(), Some(3100));
    let probe = service.probe.as_ref().unwrap();
    assert_eq!(probe.failure_threshold, 3);
    assert_eq!(probe.period_seconds, 1);
}

#[test]
fn probe_defaults_apply() {
    let config = parse(
        r#"
[[service]]
name = "api"
run-cmd = ["sleep", "1"]
probe = { tcp-connect = { port = 5432 } }
"#,
    )
    .unwrap();
    let probe = config.services[0].probe.as_ref().unwrap();
    assert_eq!(probe.initial_delay_seconds, 1);
    assert_eq!(probe.period_seconds, 1);
    assert_eq!(probe.timeout_seconds, 2);
    assert_eq!(probe.failure_threshold, 3);
    assert_eq!(config.services[0].target().describe(), "tcp 127.0.0.1:5432");
}

#[test]
fn duplicate_names_rejected() {
    let err = parse(
        r#"
[[service]]
name = "a"
run-cmd = ["true"]

[[service]]
name = "a"
run-cmd = ["true"]
"#,
    )
    .unwrap_err();
    assert!(err.contains("duplicate"), "{err}");
    assert_eq!(err, "duplicate service name \"a\"");
}

#[test]
fn probe_requires_exactly_one_kind() {
    let both = parse(
        r#"
[[service]]
name = "a"
run-cmd = ["true"]
probe = { http-get = { port = 1 }, tcp-connect = { port = 2 } }
"#,
    )
    .unwrap_err();
    assert!(both.contains("exactly one"), "{both}");

    let neither = parse(
        r#"
[[service]]
name = "a"
run-cmd = ["true"]
probe = { period-seconds = 1 }
"#,
    )
    .unwrap_err();
    assert!(neither.contains("http-get"), "{neither}");
}

#[test]
fn https_scheme_is_rejected() {
    let err = parse(
        r#"
[[service]]
name = "a"
run-cmd = ["true"]
probe = { http-get = { scheme = "https", port = 443 } }
"#,
    )
    .unwrap_err();
    assert!(err.contains("not supported"), "{err}");
    assert_eq!(
        err,
        "service \"a\": probe scheme \"https\" is not supported; only \"http\" is (local dev endpoints)"
    );
}

#[test]
fn argv_is_the_only_form_and_empty_argv_is_rejected() {
    let config = parse(
        r#"
[[service]]
name = "a"
run-cmd = ["cargo", "run", "--", "--flag"]
"#,
    )
    .unwrap();
    assert_eq!(
        config.services[0].run_cmd.argv(),
        ["cargo", "run", "--", "--flag"]
    );

    let err = parse(
        r#"
[[service]]
name = "a"
run-cmd = []
"#,
    )
    .unwrap_err();
    assert!(err.contains("empty"), "{err}");

    let blank = parse(
        r#"
[[service]]
name = "a"
run-cmd = ["", "arg"]
"#,
    )
    .unwrap_err();
    assert!(blank.contains("program name"), "{blank}");
}

#[test]
fn settings_defaults_and_overrides() {
    let config = parse(
        r#"
[settings]
stop-timeout-seconds = 3

[[service]]
name = "a"
run-cmd = ["true"]
"#,
    )
    .unwrap();
    assert_eq!(config.settings.stop_timeout_seconds, 3);
    assert!(config.settings.port_check);
    assert_eq!(config.settings.log_max_bytes, 32 * 1024 * 1024);
    assert_eq!(Settings::default().stop_timeout_seconds, 10);
}

#[test]
fn display_renders_a_toml_array_literal() {
    let config = parse(
        r#"
[[service]]
name = "a"
run-cmd = ["sh", "-c", "echo \"hi\" > out; sleep 1"]
"#,
    )
    .unwrap();
    assert_eq!(
        config.services[0].run_cmd.display(),
        r#"["sh", "-c", "echo \"hi\" > out; sleep 1"]"#
    );
}

#[test]
fn displayed_commands_read_back_as_toml() {
    let args = vec![
        "sh".to_string(),
        String::new(),
        "a\\b\"c\n\r\t\u{1}\u{7f}\u{85} é".to_string(),
    ];
    let shown = Cmd(args.clone()).display();
    assert_eq!(
        shown,
        "[\"sh\", \"\", \"a\\\\b\\\"c\\n\\r\\t\\u0001\\u007F\\u0085 é\"]"
    );
    let table: toml::Table = toml::from_str(&format!("cmd = {shown}\n")).unwrap();
    assert_eq!(argv(&table["cmd"]), Cmd(args));
    assert_eq!(Cmd(Vec::new()).display(), "[]");
}

#[test]
fn non_local_host_has_no_local_port() {
    let config = parse(
        r#"
[[service]]
name = "a"
run-cmd = ["true"]
probe = { http-get = { host = "example.com", port = 80 } }
"#,
    )
    .unwrap();
    assert_eq!(config.services[0].target().local_port(), None);
}

#[test]
fn local_hosts_are_the_loopback_names() {
    for host in ["127.0.0.1", "localhost", "::1", "[::1]"] {
        assert!(is_local_host(host), "{host}");
    }
    for host in ["0.0.0.0", "localhost.", "", "127.0.0.2"] {
        assert!(!is_local_host(host), "{host}");
    }
}

#[test]
fn env_file_must_not_be_empty() {
    let err = parse(
        r#"
[[service]]
name = "a"
run-cmd = ["true"]
env-file = "  "
"#,
    )
    .unwrap_err();
    assert!(err.contains("env-file"), "{err}");
}

#[test]
fn every_problem_has_its_message() {
    let named = |name: &str| of(vec![plain(name, &["true"])]);
    assert_eq!(
        validate(&of(Vec::new())).unwrap_err(),
        "no [[service]] table declared"
    );
    assert_eq!(
        validate(&named("")).unwrap_err(),
        "service name must not be empty"
    );
    assert_eq!(
        validate(&named("-a")).unwrap_err(),
        "service \"-a\": name must start with a letter or digit"
    );
    assert_eq!(
        validate(&named("a b/c")).unwrap_err(),
        "service \"a b/c\": name must not contain ' ' (allowed: letters, digits, '-', '_', '.')"
    );
    assert_eq!(
        validate(&named("a\u{1}")).unwrap_err(),
        "service \"a\u{1}\": name must not contain '\\u{1}' (allowed: letters, digits, '-', '_', '.')"
    );
    assert_eq!(validate(&named("a-b_c.9")), Ok(()));

    let mut blank = plain("a", &["true"]);
    blank.build_cmd = Some(Cmd(vec![" ".to_string()]));
    assert_eq!(
        validate(&of(vec![blank])).unwrap_err(),
        "service \"a\": build-cmd must start with a program name"
    );

    let probed = |change: fn(&mut Probe)| {
        let mut service = plain("a", &["true"]);
        let mut probe = Probe {
            tcp_connect: Some(TcpConnect {
                host: default_host(),
                port: 1,
            }),
            ..Probe::default()
        };
        change(&mut probe);
        service.probe = Some(probe);
        validate(&of(vec![service]))
    };
    assert_eq!(probed(|_| {}), Ok(()));
    assert_eq!(
        probed(|p| p.tcp_connect.as_mut().unwrap().port = 0).unwrap_err(),
        "service \"a\": probe port must not be 0"
    );
    assert_eq!(
        probed(|p| p.tcp_connect.as_mut().unwrap().host = "\t".to_string()).unwrap_err(),
        "service \"a\": probe host must not be empty"
    );
    assert_eq!(
        probed(|p| p.failure_threshold = 0).unwrap_err(),
        "service \"a\": probe failure-threshold must be at least 1"
    );
    assert_eq!(
        probed(|p| p.period_seconds = 0).unwrap_err(),
        "service \"a\": probe period-seconds must be at least 1"
    );
    assert_eq!(
        probed(|p| p.timeout_seconds = 0).unwrap_err(),
        "service \"a\": probe timeout-seconds must be at least 1"
    );
}

#[test]
fn env_file_path_is_relative_to_the_project_root() {
    let config = parse(
        r#"
[[service]]
name = "a"
run-cmd = ["true"]
env-file = "config/dev.env"
"#,
    )
    .unwrap();
    let project = project("/work/demo");
    let service = config.service("a").unwrap();
    assert_eq!(
        service.env_file_path(&project).unwrap().display(),
        "/work/demo/config/dev.env"
    );

    // An absolute path is used as it is.
    let config = parse(
        r#"
[[service]]
name = "a"
run-cmd = ["true"]
env-file = "/elsewhere/absolute.env"
"#,
    )
    .unwrap();
    assert_eq!(
        config
            .service("a")
            .unwrap()
            .env_file_path(&project)
            .unwrap()
            .display(),
        "/elsewhere/absolute.env"
    );
    assert!(plain("a", &["true"]).env_file_path(&project).is_none());
}

#[test]
fn working_directories_are_resolved_against_the_root() {
    let mut service = plain("a", &["true"]);
    assert_eq!(service.cwd_path(&project("/p")).display(), "/p");
    service.cwd = Some("web".to_string());
    assert_eq!(service.cwd_path(&project("/p")).display(), "/p/web");
    assert_eq!(service.cwd_path(&project("/")).display(), "/web");
    service.cwd = Some("/srv".to_string());
    assert_eq!(service.cwd_path(&project("/p")).display(), "/srv");
}

#[test]
fn spawn_env_merges_the_file_under_the_env_table() {
    let config = parse(
        r#"
[[service]]
name = "backend"
run-cmd = ["true"]
env-file = ".env"
env = { WHO = "inline", ONLY_INLINE = "yes" }
"#,
    )
    .unwrap();
    let file = EnvSource::Bytes(
        b"# from the file\nFROM_FILE=file\nWHO=file\nPORT=\"5432\"\n".to_vec(),
    );
    let env = config
        .service("backend")
        .unwrap()
        .spawn_env(&project("/p"), &file)
        .unwrap();
    assert_eq!(env.get("FROM_FILE"), Some("file"));
    assert_eq!(env.get("PORT"), Some("5432"));
    // The explicit table wins over the file.
    assert_eq!(env.get("WHO"), Some("inline"));
    assert_eq!(env.get("ONLY_INLINE"), Some("yes"));
    assert_eq!(env.len(), 4);
}

#[test]
fn spawn_env_without_an_env_file_is_just_the_env_table() {
    let config = parse(
        r#"
[[service]]
name = "a"
run-cmd = ["true"]
env = { A = "1" }
"#,
    )
    .unwrap();
    let env = config
        .service("a")
        .unwrap()
        .spawn_env(&project("/p"), &EnvSource::Bytes(b"B=2\n".to_vec()))
        .unwrap();
    assert_eq!(env.len(), 1);
    assert_eq!(env.get("A"), Some("1"));
}

#[test]
fn a_missing_env_file_names_the_resolved_path() {
    let config = parse(
        r#"
[[service]]
name = "backend"
run-cmd = ["true"]
env-file = "config/dev.env"
"#,
    )
    .unwrap();
    let text = config
        .service("backend")
        .unwrap()
        .spawn_env(
            &project("/p"),
            &EnvSource::Unopened("No such file or directory (os error 2)".to_string()),
        )
        .unwrap_err();
    assert!(text.contains("service \"backend\""), "{text}");
    assert!(text.contains("cannot read env-file"), "{text}");
    assert!(text.contains("/p/config/dev.env"), "{text}");
}

#[test]
fn the_fingerprint_tracks_env_file_contents() {
    let raw = r#"
[[service]]
name = "a"
run-cmd = ["true"]
env-file = ".env"
"#;
    let root = FsPath::from_text("/p");
    let config = parse(raw).unwrap();
    let hash = |file: Option<&[u8]>| {
        fingerprint(&root, raw, &config, &vec![file.map(|bytes| bytes.to_vec())])
    };
    let first = hash(Some(b"A=1\n"));

    // Same bytes: same revision.
    assert_eq!(hash(Some(b"A=1\n")), first);

    let edited = hash(Some(b"A=2\n"));
    assert_ne!(edited, first, "editing .env must change the fingerprint");

    let deleted = hash(None);
    assert_ne!(deleted, edited, "deleting .env must change the fingerprint");

    // A service without env-file keeps the plain config fingerprint.
    let plain_raw = "[[service]]\nname = \"a\"\nrun-cmd = [\"true\"]\n";
    let plain = parse(plain_raw).unwrap();
    let first_plain = fingerprint(&root, plain_raw, &plain, &vec![None]);
    assert_eq!(
        fingerprint(&root, plain_raw, &plain, &vec![Some(b"ignored".to_vec())]),
        first_plain
    );
    assert_ne!(first_plain, first);
    assert_eq!(
        fingerprint(&root, "", &of(Vec::new()), &Vec::new()),
        "fnv1a64:cbf29ce484222325"
    );
    assert_eq!(
        fingerprint(&root, "a", &of(Vec::new()), &Vec::new()),
        "fnv1a64:af63dc4c8601ec8c"
    );
}

#[test]
fn a_loaded_config_is_validated_and_fingerprinted() {
    let path = FsPath::from_text("/p/agproc.toml");
    let root = FsPath::from_text("/p");
    let loaded = load(&path, &root, "a", of(vec![plain("x", &["true"])]), &vec![None]).unwrap();
    assert_eq!(loaded.hash, "fnv1a64:af63dc4c8601ec8c");
    assert_eq!(loaded.config.service_names(), ["x"]);
    let err = load(&path, &root, "a", of(Vec::new()), &Vec::new()).unwrap_err();
    assert_eq!(
        err,
        "invalid config /p/agproc.toml: no [[service]] table declared"
    );
}

#[test]
fn timeouts_fall_back_to_the_settings() {
    let mut service = plain("a", &["true"]);
    let settings = Settings::default();
    assert_eq!(service.build_timeout(), 0);
    assert_eq!(service.stop_timeout(&settings), 10);
    service.build_timeout_seconds = Some(7);
    service.stop_timeout_seconds = Some(0);
    assert_eq!(service.build_timeout(), 7);
    assert_eq!(service.stop_timeout(&settings), 0);
}

#[test]
fn targets_have_kinds_and_texts() {
    assert_eq!(ProbeTarget::NoProbe.kind_str(), "none");
    assert_eq!(ProbeTarget::NoProbe.describe(), "none");
    let tcp = ProbeTarget::Tcp {
        host: "::1".to_string(),
        port: 65535,
    };
    assert_eq!(tcp.kind_str(), "tcp-connect");
    assert_eq!(tcp.describe(), "tcp ::1:65535");
    assert_eq!(tcp.local_port(), Some(65535));
    assert_eq!(Probe::default().target(), ProbeTarget::NoProbe);
}

#[test]
fn services_are_selected_once_and_in_the_order_asked_for() {
    let config = of(vec![
        plain("a", &["true"]),
        plain("b", &["true"]),
        plain("c", &["true"]),
    ]);
    let names = |list: &[&str]| list.iter().map(|s| s.to_string()).collect::<Vec<_>>();
    assert_eq!(select_services(&config, &names(&[])), Ok(vec![0, 1, 2]));
    assert_eq!(
        select_services(&config, &names(&["c", "a", "c"])),
        Ok(vec![2, 0])
    );
    assert_eq!(
        select_services(&config, &names(&["a", "zz"])),
        Err("unknown service \"zz\"; known services: a, b, c".to_string())
    );
    assert!(config.service("b").is_some());
    assert!(config.service("B").is_none());
}

#[test]
fn own_lines_carry_the_label() {
    let prefix = Prefix::service("api", Some(5));
    assert_eq!(prefix.marker("RUNNING"), b"api   | ===== RUNNING =====\n");
    assert_eq!(prefix.diagnostic("oops"), b"api   | oops\n");
    assert_eq!(Prefix::plain().marker("X"), b"===== X =====\n");
}

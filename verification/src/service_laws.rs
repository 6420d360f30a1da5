//! What holds of what a service declares: its target, its environment, its
//! revision, and what is said of a declaration that is refused.

use vstd::prelude::*;
use vstd::string::*;
use vstd::utf8::*;

use crate::config;
use crate::config::{Cmd, Config, HttpGet, Probe, ProbeTarget, Service, TcpConnect};
use crate::paths;
use crate::scan;
use crate::text;
use crate::util;

verus! {

// -------------------------------------------------------------------- targets
/// A target is told as what would be asked for: a URL, or the endpoint that is
/// connected to.
pub proof fn law_targets_are_told_as_they_are(
    scheme: String,
    host: String,
    port: u16,
    path: String,
)
    ensures
        config::target_text(ProbeTarget::Http { scheme, host, port, path }) == scheme@ + "://"@
            + host@ + ":"@ + text::decimal(port as nat) + path@,
        config::target_text(ProbeTarget::Tcp { host, port }) == "tcp "@ + host@ + ":"@
            + text::decimal(port as nat),
        config::target_text(ProbeTarget::NoProbe) == "none"@,
        config::target_kind(ProbeTarget::Http { scheme, host, port, path }) == "http-get"@,
        config::target_kind(ProbeTarget::Tcp { host, port }) == "tcp-connect"@,
        config::target_kind(ProbeTarget::NoProbe) == "none"@,
{
}

/// A target has a local port, its own, exactly where its host is a name or an
/// address of the loopback interface.
pub proof fn law_loopback_targets_have_a_local_port(
    scheme: String,
    host: String,
    port: u16,
    path: String,
)
    ensures
        ({
            let loopback = host@ == "127.0.0.1"@ || host@ == "localhost"@ || host@ == "::1"@
                || host@ == "[::1]"@;
            let http = ProbeTarget::Http { scheme, host, port, path };
            let tcp = ProbeTarget::Tcp { host, port };
            &&& config::local_host(host@) <==> loopback
            &&& loopback ==> config::target_port(http) == Some(port) && config::target_port(tcp)
                == Some(port)
            &&& !loopback ==> config::target_port(http) is None && config::target_port(tcp) is None
            &&& config::target_port(ProbeTarget::NoProbe) is None
        }),
{
}

/// A service is probed at what its probe table declares, and not at all without
/// one.
pub proof fn law_services_are_probed_as_declared(
    service: Service,
    probe: Probe,
    http: HttpGet,
    tcp: TcpConnect,
)
    ensures
        service.probe is None ==> config::service_target(service) == ProbeTarget::NoProbe,
        service.probe == Some(probe) && probe.http_get == Some(http) ==> (config::service_target(
            service,
        ) matches ProbeTarget::Http { scheme, host, port, path } && scheme == http.scheme && host
            == http.host && port == http.port && path == http.path),
        service.probe == Some(probe) && probe.http_get is None && probe.tcp_connect == Some(tcp)
            ==> (config::service_target(service) matches ProbeTarget::Tcp { host, port } && host
            == tcp.host && port == tcp.port),
        service.probe == Some(probe) && probe.http_get is None && probe.tcp_connect is None
            ==> config::service_target(service) == ProbeTarget::NoProbe,
        service.probe == Some(probe) ==> config::probe_target(probe) == config::service_target(
            service,
        ),
{
}

// ---------------------------------------------------------------- environment
/// Without an env-file the children get the `env` table and nothing else. With one
/// that is refused they get nothing, and the service is named with the reason.
pub proof fn law_a_refused_env_file_names_the_service(
    service: Service,
    file: Result<Map<Seq<char>, Seq<char>>, Seq<char>>,
)
    ensures
        service.env_file is None ==> config::spawn_vars(service, file) == Ok::<
            Map<Seq<char>, Seq<char>>,
            Seq<char>,
        >(service.env@),
        service.env_file is Some && file is Err ==> config::spawn_vars(service, file) == Err::<
            Map<Seq<char>, Seq<char>>,
            Seq<char>,
        >("service \""@ + service.name@ + "\": "@ + file->Err_0),
{
}

/// An env-file lies where its key says, seen from the project root.
pub proof fn law_env_files_lie_under_the_root(service: Service, root: Seq<u8>, file: String)
    requires
        service.env_file == Some(file),
    ensures
        config::env_path(service, root) == paths::path_join(root, encode_utf8(file@)),
{
}

/// The services are found by their names, the first of them where there are more.
pub proof fn law_the_first_of_a_name_is_found(services: Seq<Service>, name: Seq<char>, i: int)
    ensures
        config::names(services).len() == services.len(),
        0 <= i < services.len() ==> config::names(services)[i] == services[i].name@,
        0 <= i < services.len() && services[i].name@ == name && (forall|j: int|
            0 <= j < i ==> (#[trigger] services[j]).name@ != name) ==> config::service_index(
            services,
            name,
        ) == Some(i),
        (forall|j: int| 0 <= j < services.len() ==> (#[trigger] services[j]).name@ != name)
            ==> config::service_index(services, name) is None,
{
    config::lemma_service_index(services, name);
}

// ------------------------------------------------------------------- revision
/// Every service that declares an env-file adds its name, the path and the bytes
/// to the revision, each behind a null byte; a file that cannot be read adds a
/// fixed word. A service without one adds nothing.
pub proof fn law_revisions_hold_every_env_file(
    root: Seq<u8>,
    raw: Seq<char>,
    services: Seq<Service>,
    files: Seq<Option<Seq<u8>>>,
    service: Service,
    file: Option<Seq<u8>>,
)
    requires
        files.len() == services.len(),
    ensures
        ({
            let before = config::revision(root, raw, services, files);
            let after = config::revision(root, raw, services.push(service), files.push(file));
            &&& service.env_file is None ==> after == before
            &&& service.env_file matches Some(key) ==> after == before + (seq![0u8] + encode_utf8(
                service.name@,
            ) + seq![0u8] + paths::path_join(root, encode_utf8(key@)) + seq![0u8] + (match file {
                Some(bytes) => bytes,
                None => encode_utf8("<unreadable>"@),
            }))
        }),
        config::revision(root, raw, Seq::empty(), Seq::empty()) == encode_utf8(raw),
{
    assert(services.push(service).drop_last() =~= services);
    assert(files.push(file).drop_last() =~= files);
    let before = config::revision(root, raw, services, files);
    if service.env_file is None {
        assert(before + Seq::<u8>::empty() =~= before);
    }
}

/// A fingerprint is the hash of the revision in sixteen hexadecimal digits, behind
/// the name of the hash.
pub proof fn law_fingerprints_name_their_hash(bytes: Seq<u8>)
    ensures
        config::fingerprint_text(bytes) == "fnv1a64:"@ + util::hex(util::fnv(bytes) as nat, 16),
        util::hex(util::fnv(bytes) as nat, 16).len() == 16,
{
    crate::text_laws::law_hexadecimal_digits_are_in_lower_case(util::fnv(bytes) as nat, 16);
}

/// The files that were read are taken with their bytes, one by one.
pub proof fn law_read_files_keep_their_bytes(files: Seq<Option<Vec<u8>>>, i: int)
    ensures
        config::files_bytes(files).len() == files.len(),
        0 <= i < files.len() ==> (match files[i] {
            Some(bytes) => config::files_bytes(files)[i] == Some(bytes@),
            None => config::files_bytes(files)[i] is None,
        }),
{
}

// ----------------------------------------------------------------- validation
/// `service "<name>": <what>`.
pub open spec fn told(name: Seq<char>, what: Seq<char>) -> Option<Seq<char>> {
    Some("service \""@ + name + "\": "@ + what)
}

/// The characters of a service name are the letters and digits of ASCII, the
/// hyphen, the underscore and the dot.
pub proof fn law_service_names_hold_few_characters(c: char)
    ensures
        config::name_char(c) <==> {
            let n = c as int;
            48 <= n <= 57 || 65 <= n <= 90 || 97 <= n <= 122 || n == 45 || n == 95 || n == 46
        },
{
}

/// A refused name is refused for what is wrong with it first: that it is empty,
/// its first character, or the first one that no name holds.
pub proof fn law_refused_names_are_told_why(name: Seq<char>, i: int)
    ensures
        name.len() == 0 ==> config::name_problem(name) == Some("service name must not be empty"@),
        name.len() > 0 && !text::ascii_alphanumeric(name[0]) ==> config::name_problem(name)
            == told(name, "name must start with a letter or digit"@),
        name.len() > 0 && text::ascii_alphanumeric(name[0]) && 0 <= i < name.len()
            && !config::name_char(name[i]) && (forall|j: int|
            0 <= j < i ==> config::name_char(#[trigger] name[j])) ==> config::name_problem(name)
            == told(
            name,
            "name must not contain "@ + text::debug_char(name[i])
                + " (allowed: letters, digits, '-', '_', '.')"@,
        ),
{
    if 0 <= i < name.len() && !config::name_char(name[i]) && (forall|j: int|
        0 <= j < i ==> config::name_char(#[trigger] name[j])) {
        lemma_first_bad_is(name, i);
    }
}

proof fn lemma_first_bad_is(name: Seq<char>, i: int)
    requires
        0 <= i < name.len(),
        !config::name_char(name[i]),
        forall|j: int| 0 <= j < i ==> config::name_char(#[trigger] name[j]),
    ensures
        config::first_bad(name) == i,
    decreases name.len(),
{
    if i > 0 {
        assert(config::name_char(name[0]));
        let rest = name.skip(1);
        assert forall|j: int| 0 <= j < i - 1 implies config::name_char(#[trigger] rest[j]) by {
            assert(config::name_char(name[j + 1]));
        }
        lemma_first_bad_is(rest, i - 1);
    }
}

/// A command must have a program that is more than white space.
pub proof fn law_commands_start_with_a_program(name: Seq<char>, key: Seq<char>, cmd: Cmd)
    ensures
        cmd.0@.len() == 0 ==> config::cmd_problem(name, key, cmd) == told(
            name,
            key + " must not be empty"@,
        ),
        cmd.0@.len() > 0 && scan::blank(cmd.0@[0]@) ==> config::cmd_problem(name, key, cmd)
            == told(name, key + " must start with a program name"@),
        cmd.0@.len() > 0 && !scan::blank(cmd.0@[0]@) ==> config::cmd_problem(name, key, cmd)
            is None,
{
}

/// A probe has one kind, speaks plain HTTP or TCP, and points at a host and a port.
pub proof fn law_refused_probe_kinds_are_told_why(
    name: Seq<char>,
    probe: Probe,
    http: HttpGet,
    tcp: TcpConnect,
)
    ensures
        ({
            let problem = config::probe_kind_problem(name, probe);
            &&& probe.http_get is Some && probe.tcp_connect is Some ==> problem == told(
                name,
                "probe must set exactly one of http-get / tcp-connect, found both"@,
            )
            &&& probe.http_get is None && probe.tcp_connect is None ==> problem == told(
                name,
                "probe must set http-get or tcp-connect (remove the table to use liveness only)"@,
            )
            &&& probe.http_get == Some(http) && probe.tcp_connect is None && http.scheme@
                != "http"@ ==> problem == told(
                name,
                "probe scheme "@ + text::debug_str(http.scheme@)
                    + " is not supported; only \"http\" is (local dev endpoints)"@,
            )
            &&& probe.http_get == Some(http) && probe.tcp_connect is None && http.scheme@
                == "http"@ ==> problem == (if http.port == 0 {
                told(name, "probe port must not be 0"@)
            } else if scan::blank(http.host@) {
                told(name, "probe host must not be empty"@)
            } else {
                None
            })
            &&& probe.http_get is None && probe.tcp_connect == Some(tcp) ==> problem == (if tcp.port
                == 0 {
                told(name, "probe port must not be 0"@)
            } else if scan::blank(tcp.host@) {
                told(name, "probe host must not be empty"@)
            } else {
                None
            })
        }),
{
}

/// What is wrong with a probe's kind or target comes first, then a threshold, a
/// period or a timeout of zero.
pub proof fn law_refused_probes_are_told_why(name: Seq<char>, probe: Probe)
    ensures
        ({
            let kind = config::probe_kind_problem(name, probe);
            let problem = config::probe_problem(name, probe);
            &&& kind is Some ==> problem == kind
            &&& kind is None && probe.failure_threshold == 0 ==> problem == told(
                name,
                "probe failure-threshold must be at least 1"@,
            )
            &&& kind is None && probe.failure_threshold > 0 && probe.period_seconds == 0
                ==> problem == told(name, "probe period-seconds must be at least 1"@)
            &&& kind is None && probe.failure_threshold > 0 && probe.period_seconds > 0
                && probe.timeout_seconds == 0 ==> problem == told(
                name,
                "probe timeout-seconds must be at least 1"@,
            )
            &&& kind is None && probe.failure_threshold > 0 && probe.period_seconds > 0
                && probe.timeout_seconds > 0 ==> problem is None
        }),
{
}

/// Of a service its name is checked first, then the run-cmd, the build-cmd, the
/// env-file and the probe; the first thing that is wrong is told.
pub proof fn law_services_are_checked_in_order(
    service: Service,
    build: Cmd,
    file: String,
    probe: Probe,
)
    ensures
        ({
            let name = service.name@;
            let named = config::name_problem(name);
            let runs = config::cmd_problem(name, "run-cmd"@, service.run_cmd);
            let builds = if service.build_cmd == Some(build) {
                config::cmd_problem(name, "build-cmd"@, build)
            } else {
                None
            };
            let empty_file = service.env_file == Some(file) && scan::blank(file@);
            let problem = config::service_problem(service);
            &&& named is Some ==> problem == named
            &&& named is None && runs is Some ==> problem == runs
            &&& named is None && runs is None && builds is Some ==> problem == builds
            &&& named is None && runs is None && builds is None && (service.build_cmd is None
                || service.build_cmd == Some(build)) && empty_file ==> problem == told(
                name,
                "env-file must not be empty (remove the key when the service needs no env file)"@,
            )
            &&& named is None && runs is None && builds is None && (service.build_cmd is None
                || service.build_cmd == Some(build)) && (service.env_file is None
                || service.env_file == Some(file)) && !empty_file ==> {
                &&& service.probe == Some(probe) ==> problem == config::probe_problem(name, probe)
                &&& service.probe is None ==> problem is None
            }
        }),
{
}

/// Of a configuration the first service with a problem is told, then the first name
/// that was declared before.
pub proof fn law_configurations_are_refused_for_the_first_problem(config: Config, i: int)
    ensures
        config.services@.len() == 0 ==> config::config_problem(config) == Some(
            "no [[service]] table declared"@,
        ),
        0 <= i < config.services@.len() && config::service_problem(config.services@[i]) is Some && (
        forall|j: int|
            0 <= j < i ==> config::service_problem(#[trigger] config.services@[j]) is None)
            ==> config::config_problem(config) == config::service_problem(config.services@[i]),
        0 <= i < config.services@.len() && (forall|j: int|
            0 <= j < config.services@.len() ==> config::service_problem(
                #[trigger] config.services@[j],
            ) is None) && config::names(config.services@.take(i)).contains(
            config.services@[i].name@,
        ) && (forall|j: int|
            0 <= j < i ==> !config::names(#[trigger] config.services@.take(j)).contains(
                config.services@[j].name@,
            )) ==> config::config_problem(config) == Some(
            "duplicate service name \""@ + config.services@[i].name@ + "\""@,
        ),
{
    let services = config.services@;
    if 0 <= i < services.len() {
        if config::service_problem(services[i]) is Some && (forall|j: int|
            0 <= j < i ==> config::service_problem(#[trigger] services[j]) is None) {
            lemma_services_problem_is(services, i);
        }
        if (forall|j: int|
            0 <= j < services.len() ==> config::service_problem(#[trigger] services[j]) is None)
            && config::names(services.take(i)).contains(services[i].name@) && (forall|j: int|
            0 <= j < i ==> !config::names(#[trigger] services.take(j)).contains(
                services[j].name@,
            )) {
            lemma_no_services_problem(services);
            lemma_repeated_name_is(services, 0, i);
        }
    }
}

proof fn lemma_services_problem_is(services: Seq<Service>, i: int)
    requires
        0 <= i < services.len(),
        config::service_problem(services[i]) is Some,
        forall|j: int| 0 <= j < i ==> config::service_problem(#[trigger] services[j]) is None,
    ensures
        config::services_problem(services) == config::service_problem(services[i]),
    decreases services.len(),
{
    if i > 0 {
        assert(config::service_problem(services[0]) is None);
        let rest = services.skip(1);
        assert forall|j: int| 0 <= j < i - 1 implies config::service_problem(
            #[trigger] rest[j],
        ) is None by {
            assert(config::service_problem(services[j + 1]) is None);
        }
        lemma_services_problem_is(rest, i - 1);
    }
}

proof fn lemma_no_services_problem(services: Seq<Service>)
    requires
        forall|j: int|
            0 <= j < services.len() ==> config::service_problem(#[trigger] services[j]) is None,
    ensures
        config::services_problem(services) is None,
    decreases services.len(),
{
    if services.len() > 0 {
        assert(config::service_problem(services[0]) is None);
        let rest = services.skip(1);
        assert forall|j: int| 0 <= j < rest.len() implies config::service_problem(
            #[trigger] rest[j],
        ) is None by {
            assert(config::service_problem(services[j + 1]) is None);
        }
        lemma_no_services_problem(rest);
    }
}

proof fn lemma_repeated_name_is(services: Seq<Service>, from: int, i: int)
    requires
        0 <= from <= i < services.len(),
        config::names(services.take(i)).contains(services[i].name@),
        forall|j: int|
            from <= j < i ==> !config::names(#[trigger] services.take(j)).contains(
                services[j].name@,
            ),
    ensures
        config::repeated_name(services, from) == Some(i),
    decreases i - from,
{
    if from < i {
        assert(!config::names(services.take(from)).contains(services[from].name@));
        lemma_repeated_name_is(services, from + 1, i);
    }
}

/// A check passes when it names no problem.
pub proof fn law_checks_pass_without_a_problem(r: Result<(), String>)
    ensures
        r is Ok <==> config::problem_of(r) is None,
        r matches Err(message) ==> config::problem_of(r) == Some(message@),
{
}

} // verus!

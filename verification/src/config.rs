//! `agproc.toml`: what it declares, its validation and its revision.
//!
//! A typo in a config an agent just wrote must fail loudly instead of silently
//! doing nothing.

use vstd::prelude::*;
use vstd::string::*;
use vstd::utf8::*;

use crate::bytes;
use crate::envfile;
use crate::envfile::EnvSource;
use crate::envmap::EnvMap;
use crate::paths;
use crate::paths::{FsPath, Project};
use crate::scan;
use crate::text;
use crate::util;

verus! {

#[derive(Debug, Clone)]
pub struct Settings {
    /// Grace period between SIGTERM and SIGKILL on `stop`.
    pub stop_timeout_seconds: u64,
    /// Rotate a log file once it grows past this size (0 disables rotation).
    pub log_max_bytes: u64,
    /// Look for foreign listeners on the probe port before/after starting.
    pub port_check: bool,
}

impl Default for Settings {
    fn default() -> (out: Settings)
        ensures
            out.stop_timeout_seconds == 10,
            out.log_max_bytes == 33_554_432,
            out.port_check,
    {
        Settings { stop_timeout_seconds: 10, log_max_bytes: 33_554_432, port_check: true }
    }
}

#[derive(Debug, Clone)]
pub struct Config {
    pub settings: Settings,
    pub services: Vec<Service>,
}

#[derive(Debug, Clone)]
pub struct Service {
    pub name: String,
    /// Working directory, relative to the project root (default: the root).
    pub cwd: Option<String>,
    pub env: EnvMap,
    /// Optional dotenv file (relative to the project root) whose `KEY=VALUE`
    /// pairs join the environment of both `build-cmd` and `run-cmd`; `env` wins
    /// over it.
    pub env_file: Option<String>,
    /// Omitted means "no build step"; the RUNNING phase starts directly.
    pub build_cmd: Option<Cmd>,
    /// 0 (the default) means no build timeout.
    pub build_timeout_seconds: Option<u64>,
    /// argv array, executed directly (no shell).
    pub run_cmd: Cmd,
    /// Overrides `[settings] stop-timeout-seconds`.
    pub stop_timeout_seconds: Option<u64>,
    pub probe: Option<Probe>,
}

/// A command is an argv array — program first, arguments after — executed
/// directly without a shell. Shell syntax (pipes, `&&`, redirections, globs,
/// variables) needs an explicit shell: `["sh", "-c", "..."]`.
#[derive(Debug, Clone, PartialEq, Eq)]
pub struct Cmd(pub Vec<String>);

/// What a config that writes a command as a string is told.
pub const STRING_COMMAND_HINT: &'static str =
    "commands are argv arrays, e.g. build-cmd = [\"cargo\", \"build\"]; write [\"sh\", \"-c\", \"<command line>\"] if you need shell syntax (the string form that ran `<shell> -c` was removed)";

#[derive(Debug, Clone)]
pub struct Probe {
    pub http_get: Option<HttpGet>,
    pub tcp_connect: Option<TcpConnect>,
    pub initial_delay_seconds: u64,
    pub period_seconds: u64,
    pub timeout_seconds: u64,
    pub failure_threshold: u32,
}

impl Default for Probe {
    fn default() -> (out: Probe)
        ensures
            out.http_get is None,
            out.tcp_connect is None,
            out.initial_delay_seconds == 1,
            out.period_seconds == 1,
            out.timeout_seconds == 2,
            out.failure_threshold == 3,
    {
        Probe {
            http_get: None,
            tcp_connect: None,
            initial_delay_seconds: 1,
            period_seconds: 1,
            timeout_seconds: 2,
            failure_threshold: 3,
        }
    }
}

#[derive(Debug, Clone)]
pub struct HttpGet {
    pub scheme: String,
    pub host: String,
    pub port: u16,
    pub path: String,
}

#[derive(Debug, Clone)]
pub struct TcpConnect {
    pub host: String,
    pub port: u16,
}

pub fn default_scheme() -> (out: String)
    ensures
        out@ == "http"@,
{
    "http".to_string()
}

pub fn default_host() -> (out: String)
    ensures
        out@ == "127.0.0.1"@,
{
    "127.0.0.1".to_string()
}

pub fn default_path() -> (out: String)
    ensures
        out@ == "/"@,
{
    "/".to_string()
}

// ------------------------------------------------------------------- command
/// An upper-case hexadecimal digit.
pub open spec fn upper_hex(d: int) -> char {
    if d < 10 {
        (48 + d) as char
    } else {
        (55 + d) as char
    }
}

/// A character inside a TOML basic string.
pub open spec fn escaped_char(c: char) -> Seq<char> {
    if c == '"' {
        seq!['\\', '"']
    } else if c == '\\' {
        seq!['\\', '\\']
    } else if c == '\n' {
        seq!['\\', 'n']
    } else if c == '\r' {
        seq!['\\', 'r']
    } else if c == '\t' {
        seq!['\\', 't']
    } else if text::control(c) {
        seq!['\\', 'u', '0', '0', upper_hex(c as int / 16), upper_hex(c as int % 16)]
    } else {
        seq![c]
    }
}

/// The characters of a TOML basic string.
pub open spec fn escaped(s: Seq<char>) -> Seq<char>
    decreases s.len(),
{
    if s.len() == 0 {
        Seq::empty()
    } else {
        escaped(s.drop_last()) + escaped_char(s.last())
    }
}

/// A TOML basic string.
pub open spec fn quoted(s: Seq<char>) -> Seq<char> {
    seq!['"'] + escaped(s) + seq!['"']
}

/// The items of a TOML array of strings.
pub open spec fn array_items(args: Seq<Seq<char>>) -> Seq<char>
    decreases args.len(),
{
    if args.len() == 0 {
        Seq::empty()
    } else if args.len() == 1 {
        quoted(args[0])
    } else {
        array_items(args.drop_last()) + seq![',', ' '] + quoted(args.last())
    }
}

/// A TOML array of strings.
pub open spec fn array_literal(args: Seq<Seq<char>>) -> Seq<char> {
    seq!['['] + array_items(args) + seq![']']
}

fn upper_hex_char(d: u32) -> (c: char)
    requires
        d < 16,
    ensures
        c == upper_hex(d as int),
{
    if d < 10 {
        (48u8 + d as u8) as char
    } else {
        (55u8 + d as u8) as char
    }
}

fn push_escaped(out: &mut String, c: char)
    ensures
        final(out)@ == old(out)@ + escaped_char(c),
{
    if c == '"' {
        out.push('\\');
        out.push('"');
    } else if c == '\\' {
        out.push('\\');
        out.push('\\');
    } else if c == '\n' {
        out.push('\\');
        out.push('n');
    } else if c == '\r' {
        out.push('\\');
        out.push('r');
    } else if c == '\t' {
        out.push('\\');
        out.push('t');
    } else if text::is_control(c) {
        let code = c as u32;
        out.push('\\');
        out.push('u');
        out.push('0');
        out.push('0');
        out.push(upper_hex_char(code / 16));
        out.push(upper_hex_char(code % 16));
    } else {
        out.push(c);
    }
    assert(out@ =~= old(out)@ + escaped_char(c));
}

fn push_quoted(out: &mut String, s: &str)
    ensures
        final(out)@ == old(out)@ + quoted(s@),
{
    let ghost before = out@;
    let chars = text::chars_of(s);
    out.push('"');
    assert(out@ =~= before + seq!['"'] + escaped(s@.take(0)));
    for i in 0..chars.len()
        invariant
            chars@ == s@,
            out@ == before + seq!['"'] + escaped(s@.take(i as int)),
    {
        let c = chars[i];
        push_escaped(out, c);
        proof {
            assert(s@.take(i + 1).drop_last() =~= s@.take(i as int));
            assert(s@.take(i + 1).last() == c);
            assert(out@ =~= before + seq!['"'] + escaped(s@.take(i + 1)));
        }
    }
    out.push('"');
    assert(s@.take(s@.len() as int) =~= s@);
    assert(out@ =~= before + quoted(s@));
}

impl Cmd {
    pub fn argv(&self) -> (r: &[String])
        ensures
            r@ == self.0@,
    {
        self.0.as_slice()
    }

    /// The command as a TOML array literal, so what an agent reads in
    /// `agproc skills` is exactly what belongs in the config: arguments with
    /// spaces or shell metacharacters stay unambiguous.
    pub fn display(&self) -> (out: String)
        ensures
            out@ == array_literal(text::texts(self.0@)),
    {
        let ghost args = text::texts(self.0@);
        let mut out = String::new();
        out.push('[');
        assert(out@ =~= seq!['['] + array_items(args.take(0)));
        for i in 0..self.0.len()
            invariant
                args == text::texts(self.0@),
                out@ == seq!['['] + array_items(args.take(i as int)),
        {
            if i > 0 {
                out.push(',');
                out.push(' ');
            }
            push_quoted(&mut out, self.0[i].as_str());
            proof {
                let seen = args.take(i + 1);
                assert(seen.drop_last() =~= args.take(i as int));
                assert(seen.last() == self.0@[i as int]@);
                assert(out@ =~= seq!['['] + array_items(seen));
            }
        }
        out.push(']');
        assert(args.take(args.len() as int) =~= args);
        assert(out@ =~= array_literal(args));
        out
    }
}

// -------------------------------------------------------------------- target
/// The resolved probe target.
#[derive(Debug, Clone, PartialEq, Eq)]
pub enum ProbeTarget {
    Http { scheme: String, host: String, port: u16, path: String },
    Tcp { host: String, port: u16 },
    /// No probe configured: the service is ready once it is "still alive after the initial delay".
    NoProbe,
}

/// A target as text.
pub open spec fn target_text(target: ProbeTarget) -> Seq<char> {
    match target {
        ProbeTarget::Http { scheme, host, port, path } => scheme@ + "://"@ + host@ + ":"@
            + text::decimal(port as nat) + path@,
        ProbeTarget::Tcp { host, port } => "tcp "@ + host@ + ":"@ + text::decimal(port as nat),
        ProbeTarget::NoProbe => "none"@,
    }
}

/// The word for a target's kind.
pub open spec fn target_kind(target: ProbeTarget) -> Seq<char> {
    match target {
        ProbeTarget::Http { .. } => "http-get"@,
        ProbeTarget::Tcp { .. } => "tcp-connect"@,
        ProbeTarget::NoProbe => "none"@,
    }
}

/// Hosts whose listeners can be attributed to local PIDs.
pub open spec fn local_host(host: Seq<char>) -> bool {
    host == "127.0.0.1"@ || host == "localhost"@ || host == "::1"@ || host == "[::1]"@
}

/// The local port of a target on this machine.
pub open spec fn target_port(target: ProbeTarget) -> Option<u16> {
    match target {
        ProbeTarget::Http { host, port, .. } => if local_host(host@) {
            Some(port)
        } else {
            None
        },
        ProbeTarget::Tcp { host, port } => if local_host(host@) {
            Some(port)
        } else {
            None
        },
        ProbeTarget::NoProbe => None,
    }
}

impl ProbeTarget {
    pub fn kind_str(&self) -> (r: &'static str)
        ensures
            r@ == target_kind(*self),
    {
        match self {
            ProbeTarget::Http { .. } => "http-get",
            ProbeTarget::Tcp { .. } => "tcp-connect",
            ProbeTarget::NoProbe => "none",
        }
    }

    pub fn describe(&self) -> (out: String)
        ensures
            out@ == target_text(*self),
    {
        match self {
            ProbeTarget::Http { scheme, host, port, path } => {
                let mut out = scheme.clone();
                out.append("://");
                out.append(host.as_str());
                out.append(":");
                text::push_u64(&mut out, *port as u64);
                out.append(path.as_str());
                out
            },
            ProbeTarget::Tcp { host, port } => {
                let mut out = "tcp ".to_string();
                out.append(host.as_str());
                out.append(":");
                text::push_u64(&mut out, *port as u64);
                out
            },
            ProbeTarget::NoProbe => "none".to_string(),
        }
    }

    /// The local port to attribute, when the target is on this machine. Port
    /// ownership checks are skipped for non-loopback hosts.
    pub fn local_port(&self) -> (r: Option<u16>)
        ensures
            r == target_port(*self),
    {
        match self {
            ProbeTarget::Http { host, port, .. } => if is_local_host(host.as_str()) {
                Some(*port)
            } else {
                None
            },
            ProbeTarget::Tcp { host, port } => if is_local_host(host.as_str()) {
                Some(*port)
            } else {
                None
            },
            ProbeTarget::NoProbe => None,
        }
    }

    pub fn copy(&self) -> (out: ProbeTarget)
        ensures
            out == *self,
    {
        match self {
            ProbeTarget::Http { scheme, host, port, path } => ProbeTarget::Http {
                scheme: scheme.clone(),
                host: host.clone(),
                port: *port,
                path: path.clone(),
            },
            ProbeTarget::Tcp { host, port } => ProbeTarget::Tcp { host: host.clone(), port: *port },
            ProbeTarget::NoProbe => ProbeTarget::NoProbe,
        }
    }
}

/// Hosts whose listeners we can attribute to local PIDs.
pub fn is_local_host(host: &str) -> (r: bool)
    ensures
        r == local_host(host@),
{
    text::same(host, "127.0.0.1") || text::same(host, "localhost") || text::same(host, "::1")
        || text::same(host, "[::1]")
}

/// The target that a probe table declares.
pub open spec fn probe_target(probe: Probe) -> ProbeTarget {
    match probe.http_get {
        Some(http) => ProbeTarget::Http {
            scheme: http.scheme,
            host: http.host,
            port: http.port,
            path: http.path,
        },
        None => match probe.tcp_connect {
            Some(tcp) => ProbeTarget::Tcp { host: tcp.host, port: tcp.port },
            None => ProbeTarget::NoProbe,
        },
    }
}

impl Probe {
    pub fn target(&self) -> (r: ProbeTarget)
        ensures
            r == probe_target(*self),
    {
        if let Some(http) = &self.http_get {
            return ProbeTarget::Http {
                scheme: http.scheme.clone(),
                host: http.host.clone(),
                port: http.port,
                path: http.path.clone(),
            };
        }
        if let Some(tcp) = &self.tcp_connect {
            return ProbeTarget::Tcp { host: tcp.host.clone(), port: tcp.port };
        }
        ProbeTarget::NoProbe
    }
}

// ------------------------------------------------------------------- service
/// The target of a service: none without a probe table.
pub open spec fn service_target(service: Service) -> ProbeTarget {
    match service.probe {
        Some(probe) => probe_target(probe),
        None => ProbeTarget::NoProbe,
    }
}

/// The environment of a service's children: its env-file, then its `env` table
/// on top of it.
pub open spec fn spawn_vars(
    service: Service,
    file: Result<Map<Seq<char>, Seq<char>>, Seq<char>>,
) -> Result<Map<Seq<char>, Seq<char>>, Seq<char>> {
    if service.env_file is None {
        Ok(service.env@)
    } else {
        match file {
            Ok(vars) => Ok(vars.union_prefer_right(service.env@)),
            Err(message) => Err("service \""@ + service.name@ + "\": "@ + message),
        }
    }
}

/// Where a service's env-file lies.
pub open spec fn env_path(service: Service, root: Seq<u8>) -> Seq<u8> {
    paths::path_join(root, encode_utf8(service.env_file->Some_0@))
}

impl Service {
    pub fn build_timeout(&self) -> (r: u64)
        ensures
            r == match self.build_timeout_seconds {
                Some(seconds) => seconds,
                None => 0,
            },
    {
        match self.build_timeout_seconds {
            Some(seconds) => seconds,
            None => 0,
        }
    }

    pub fn stop_timeout(&self, settings: &Settings) -> (r: u64)
        ensures
            r == match self.stop_timeout_seconds {
                Some(seconds) => seconds,
                None => settings.stop_timeout_seconds,
            },
    {
        match self.stop_timeout_seconds {
            Some(seconds) => seconds,
            None => settings.stop_timeout_seconds,
        }
    }

    pub fn target(&self) -> (r: ProbeTarget)
        ensures
            r == service_target(*self),
    {
        match &self.probe {
            Some(probe) => probe.target(),
            None => ProbeTarget::NoProbe,
        }
    }

    /// Working directory, resolved against the project root (agproc never
    /// creates it itself).
    pub fn cwd_path(&self, project: &Project) -> (out: FsPath)
        ensures
            out@ == match self.cwd {
                Some(cwd) => paths::path_join(project.root@, encode_utf8(cwd@)),
                None => project.root@,
            },
    {
        match &self.cwd {
            Some(cwd) => project.root.join(cwd.as_str()),
            None => project.root.copy(),
        }
    }

    /// The env-file resolved against the project root (an absolute path stays as
    /// it is). The file is read by the runner at session start, so editing it
    /// takes effect on the next `agproc restart`.
    pub fn env_file_path(&self, project: &Project) -> (r: Option<FsPath>)
        ensures
            match r {
                Some(path) => self.env_file is Some && path@ == env_path(*self, project.root@),
                None => self.env_file is None,
            },
    {
        match &self.env_file {
            Some(file) => Some(project.root.join(file.as_str())),
            None => None,
        }
    }

    /// The environment the service's children actually get: the env-file first,
    /// then the `env` table on top of it. Everything else is inherited from the
    /// runner, which is why only these two sources are listed. `file` is what
    /// the env-file was read to; without an env-file it is of no account.
    pub fn spawn_env(&self, project: &Project, file: &EnvSource) -> (r: Result<EnvMap, String>)
        requires
            self.env.wf(),
        ensures
            self.env_file is None ==> envfile::outcome(r) == spawn_vars(*self, Ok(Map::empty())),
            self.env_file is Some ==> exists|items: Seq<envfile::ItemView>| #[trigger]
                envfile::reads_to(*file, items) && envfile::outcome(r) == spawn_vars(
                    *self,
                    envfile::sourced(env_path(*self, project.root@), *file, items),
                ),
            r matches Ok(vars) ==> vars.wf(),
    {
        let mut env = EnvMap::new();
        if let Some(path) = self.env_file_path(project) {
            match envfile::load(&path, file) {
                Ok(vars) => {
                    env = vars;
                },
                Err(message) => {
                    let mut out = "service \"".to_string();
                    out.append(self.name.as_str());
                    out.append("\": ");
                    out.append(message.as_str());
                    return Err(out);
                },
            }
        }
        env.extend(&self.env);
        assert(self.env_file is None ==> env@ =~= self.env@);
        Ok(env)
    }
}

/// The index of the first service of a name.
pub open spec fn service_index(services: Seq<Service>, name: Seq<char>) -> Option<int>
    decreases services.len(),
{
    if services.len() == 0 {
        None
    } else if services[0].name@ == name {
        Some(0)
    } else {
        match service_index(services.skip(1), name) {
            Some(i) => Some(i + 1),
            None => None,
        }
    }
}

/// The names of services, in order.
pub open spec fn names(services: Seq<Service>) -> Seq<Seq<char>> {
    services.map_values(|s: Service| s.name@)
}

/// What `service_index` finds.
pub proof fn lemma_service_index(services: Seq<Service>, name: Seq<char>)
    ensures
        match service_index(services, name) {
            Some(i) => 0 <= i < services.len() && services[i].name@ == name && forall|j: int|
                0 <= j < i ==> (#[trigger] services[j]).name@ != name,
            None => forall|j: int|
                0 <= j < services.len() ==> (#[trigger] services[j]).name@ != name,
        },
    decreases services.len(),
{
    if services.len() > 0 && services[0].name@ != name {
        let rest = services.skip(1);
        lemma_service_index(rest, name);
        assert forall|j: int|
            0 <= j < services.len() && (service_index(services, name) matches Some(i) ==> j
                < i) implies (#[trigger] services[j]).name@ != name by {
            if j > 0 {
                assert(rest[j - 1] == services[j]);
            }
        }
    }
}

impl Config {
    /// The first service of that name.
    pub fn service(&self, name: &str) -> (r: Option<&Service>)
        ensures
            match service_index(self.services@, name@) {
                Some(i) => r == Some(&self.services@[i]),
                None => r is None,
            },
    {
        match self.position(name) {
            Some(i) => Some(&self.services[i]),
            None => None,
        }
    }

    /// Where the first service of that name stands.
    pub fn position(&self, name: &str) -> (r: Option<usize>)
        ensures
            match r {
                Some(i) => service_index(self.services@, name@) == Some(i as int) && i
                    < self.services@.len(),
                None => service_index(self.services@, name@) is None,
            },
    {
        let ghost all = self.services@;
        assert(all.skip(0) =~= all);
        for i in 0..self.services.len()
            invariant
                all == self.services@,
                service_index(all, name@) == match service_index(all.skip(i as int), name@) {
                    Some(k) => Some(k + i),
                    None => None,
                },
        {
            assert(all.skip(i as int).skip(1) =~= all.skip(i + 1));
            if text::same(self.services[i].name.as_str(), name) {
                return Some(i);
            }
        }
        None
    }

    pub fn service_names(&self) -> (out: Vec<String>)
        ensures
            text::texts(out@) == names(self.services@),
    {
        let mut out: Vec<String> = Vec::new();
        for i in 0..self.services.len()
            invariant
                out@.len() == i,
                forall|j: int| 0 <= j < i ==> (#[trigger] out@[j])@ == self.services@[j].name@,
        {
            out.push(self.services[i].name.clone());
        }
        assert(text::texts(out@) =~= names(self.services@));
        out
    }
}

// ---------------------------------------------------------------- validation
/// The characters of a service name.
pub open spec fn name_char(c: char) -> bool {
    text::ascii_alphanumeric(c) || c == '-' || c == '_' || c == '.'
}

/// Where the first character that no service name holds stands; the length of
/// the name when there is none.
pub open spec fn first_bad(name: Seq<char>) -> nat
    decreases name.len(),
{
    if name.len() == 0 || !name_char(name[0]) {
        0
    } else {
        1 + first_bad(name.skip(1))
    }
}

/// `service "<name>": <what>`.
pub open spec fn of_service(name: Seq<char>, what: Seq<char>) -> Seq<char> {
    "service \""@ + name + "\": "@ + what
}

/// What is wrong with a command.
pub open spec fn cmd_problem(name: Seq<char>, key: Seq<char>, cmd: Cmd) -> Option<Seq<char>> {
    if cmd.0@.len() == 0 {
        Some(of_service(name, key + " must not be empty"@))
    } else if scan::blank(cmd.0@[0]@) {
        Some(of_service(name, key + " must start with a program name"@))
    } else {
        None
    }
}

/// What is wrong with where a probe points.
pub open spec fn endpoint_problem(name: Seq<char>, host: Seq<char>, port: u16) -> Option<Seq<char>> {
    if port == 0 {
        Some(of_service(name, "probe port must not be 0"@))
    } else if scan::blank(host) {
        Some(of_service(name, "probe host must not be empty"@))
    } else {
        None
    }
}

/// What is wrong with the kind of a probe and with its target.
pub open spec fn probe_kind_problem(name: Seq<char>, probe: Probe) -> Option<Seq<char>> {
    match (probe.http_get, probe.tcp_connect) {
        (Some(_), Some(_)) => Some(
            of_service(name, "probe must set exactly one of http-get / tcp-connect, found both"@),
        ),
        (None, None) => Some(
            of_service(
                name,
                "probe must set http-get or tcp-connect (remove the table to use liveness only)"@,
            ),
        ),
        (Some(http), None) => if http.scheme@ != "http"@ {
            Some(
                of_service(
                    name,
                    "probe scheme "@ + text::debug_str(http.scheme@)
                        + " is not supported; only \"http\" is (local dev endpoints)"@,
                ),
            )
        } else {
            endpoint_problem(name, http.host@, http.port)
        },
        (None, Some(tcp)) => endpoint_problem(name, tcp.host@, tcp.port),
    }
}

/// What is wrong with a probe.
pub open spec fn probe_problem(name: Seq<char>, probe: Probe) -> Option<Seq<char>> {
    match probe_kind_problem(name, probe) {
        Some(problem) => Some(problem),
        None => if probe.failure_threshold == 0 {
            Some(of_service(name, "probe failure-threshold must be at least 1"@))
        } else if probe.period_seconds == 0 {
            Some(of_service(name, "probe period-seconds must be at least 1"@))
        } else if probe.timeout_seconds == 0 {
            Some(of_service(name, "probe timeout-seconds must be at least 1"@))
        } else {
            None
        },
    }
}

/// What is wrong with a service name.
pub open spec fn name_problem(name: Seq<char>) -> Option<Seq<char>> {
    if name.len() == 0 {
        Some("service name must not be empty"@)
    } else if !text::ascii_alphanumeric(name[0]) {
        Some(of_service(name, "name must start with a letter or digit"@))
    } else if first_bad(name) < name.len() {
        Some(
            of_service(
                name,
                "name must not contain "@ + text::debug_char(name[first_bad(name) as int])
                    + " (allowed: letters, digits, '-', '_', '.')"@,
            ),
        )
    } else {
        None
    }
}

/// What is wrong with what a service runs and reads.
pub open spec fn body_problem(service: Service) -> Option<Seq<char>> {
    let name = service.name@;
    match cmd_problem(name, "run-cmd"@, service.run_cmd) {
        Some(problem) => Some(problem),
        None => match (match service.build_cmd {
            Some(cmd) => cmd_problem(name, "build-cmd"@, cmd),
            None => None,
        }) {
            Some(problem) => Some(problem),
            None => if service.env_file matches Some(file) && scan::blank(file@) {
                Some(
                    of_service(
                        name,
                        "env-file must not be empty (remove the key when the service needs no env file)"@,
                    ),
                )
            } else {
                match service.probe {
                    Some(probe) => probe_problem(name, probe),
                    None => None,
                }
            },
        },
    }
}

/// The first thing wrong with a service.
pub open spec fn service_problem(service: Service) -> Option<Seq<char>> {
    match name_problem(service.name@) {
        Some(problem) => Some(problem),
        None => body_problem(service),
    }
}

/// The first thing wrong with one of the services.
pub open spec fn services_problem(services: Seq<Service>) -> Option<Seq<char>>
    decreases services.len(),
{
    if services.len() == 0 {
        None
    } else {
        match service_problem(services[0]) {
            Some(problem) => Some(problem),
            None => services_problem(services.skip(1)),
        }
    }
}

/// The first service whose name an earlier one has, from index `from` on.
pub open spec fn repeated_name(services: Seq<Service>, from: int) -> Option<int>
    decreases services.len() - from,
{
    if from >= services.len() || from < 0 {
        None
    } else if names(services.take(from)).contains(services[from].name@) {
        Some(from)
    } else {
        repeated_name(services, from + 1)
    }
}

/// The first thing wrong with a configuration.
pub open spec fn config_problem(config: Config) -> Option<Seq<char>> {
    if config.services@.len() == 0 {
        Some("no [[service]] table declared"@)
    } else {
        match services_problem(config.services@) {
            Some(problem) => Some(problem),
            None => match repeated_name(config.services@, 0) {
                Some(i) => Some(
                    "duplicate service name \""@ + config.services@[i].name@ + "\""@,
                ),
                None => None,
            },
        }
    }
}

/// A check as the first problem it names.
pub open spec fn problem_of(r: Result<(), String>) -> Option<Seq<char>> {
    match r {
        Ok(_) => None,
        Err(message) => Some(message@),
    }
}

fn fail_service(name: &str, what: &str) -> (r: Result<(), String>)
    ensures
        problem_of(r) == Some(of_service(name@, what@)),
{
    let mut out = "service \"".to_string();
    out.append(name);
    out.append("\": ");
    out.append(what);
    Err(out)
}

/// Is every service whole, and every name declared once?
pub fn validate(config: &Config) -> (r: Result<(), String>)
    ensures
        problem_of(r) == config_problem(*config),
{
    if config.services.len() == 0 {
        return Err("no [[service]] table declared".to_string());
    }
    let ghost all = config.services@;
    assert(all.skip(0) =~= all);
    for i in 0..config.services.len()
        invariant
            all == config.services@,
            all.len() > 0,
            services_problem(all) == services_problem(all.skip(i as int)),
    {
        assert(all.skip(i as int).skip(1) =~= all.skip(i + 1));
        match validate_service(&config.services[i]) {
            Ok(_) => {},
            Err(message) => return Err(message),
        }
    }
    let mut seen: Vec<String> = Vec::new();
    assert(text::texts(seen@) =~= names(all.take(0)));
    for i in 0..config.services.len()
        invariant
            all == config.services@,
            all.len() > 0,
            services_problem(all) is None,
            text::texts(seen@) == names(all.take(i as int)),
            repeated_name(all, 0) == repeated_name(all, i as int),
    {
        let name = &config.services[i].name;
        if text::any_same(&seen, name.as_str()) {
            let mut out = "duplicate service name \"".to_string();
            out.append(name.as_str());
            out.append("\"");
            return Err(out);
        }
        let ghost before = seen@;
        seen.push(name.clone());
        proof {
            assert(names(all.take(i + 1)) =~= names(all.take(i as int)).push(name@));
            assert(text::texts(seen@) =~= text::texts(before).push(name@));
        }
    }
    Ok(())
}

fn bad_char(name: &str) -> (r: Option<char>)
    ensures
        match r {
            Some(c) => first_bad(name@) < name@.len() && c == name@[first_bad(name@) as int],
            None => first_bad(name@) >= name@.len(),
        },
{
    let chars = text::chars_of(name);
    assert(name@.skip(0) =~= name@);
    for i in 0..chars.len()
        invariant
            chars@ == name@,
            first_bad(name@) == i + first_bad(name@.skip(i as int)),
    {
        assert(name@.skip(i as int).skip(1) =~= name@.skip(i + 1));
        let c = chars[i];
        if !(text::is_ascii_alphanumeric(c) || c == '-' || c == '_' || c == '.') {
            return Some(c);
        }
    }
    None
}

pub fn validate_service(service: &Service) -> (r: Result<(), String>)
    ensures
        problem_of(r) == service_problem(*service),
{
    let name = service.name.as_str();
    let chars = text::chars_of(name);
    if chars.len() == 0 {
        return Err("service name must not be empty".to_string());
    }
    if !text::is_ascii_alphanumeric(chars[0]) {
        return fail_service(name, "name must start with a letter or digit");
    }
    if let Some(bad) = bad_char(name) {
        let mut what = "name must not contain ".to_string();
        what.append(text::debug_of_char(bad).as_str());
        what.append(" (allowed: letters, digits, '-', '_', '.')");
        return fail_service(name, what.as_str());
    }
    match validate_cmd(name, "run-cmd", &service.run_cmd) {
        Ok(_) => {},
        Err(message) => return Err(message),
    }
    if let Some(build_cmd) = &service.build_cmd {
        match validate_cmd(name, "build-cmd", build_cmd) {
            Ok(_) => {},
            Err(message) => return Err(message),
        }
    }
    if let Some(file) = &service.env_file {
        if scan::is_blank(file.as_str()) {
            return fail_service(
                name,
                "env-file must not be empty (remove the key when the service needs no env file)",
            );
        }
    }
    if let Some(probe) = &service.probe {
        return validate_probe(name, probe);
    }
    Ok(())
}

pub fn validate_cmd(name: &str, key: &str, cmd: &Cmd) -> (r: Result<(), String>)
    ensures
        problem_of(r) == cmd_problem(name@, key@, *cmd),
{
    if cmd.0.len() == 0 {
        let mut what = key.to_string();
        what.append(" must not be empty");
        return fail_service(name, what.as_str());
    }
    if scan::is_blank(cmd.0[0].as_str()) {
        let mut what = key.to_string();
        what.append(" must start with a program name");
        return fail_service(name, what.as_str());
    }
    Ok(())
}

fn validate_endpoint(name: &str, host: &str, port: u16) -> (r: Result<(), String>)
    ensures
        problem_of(r) == endpoint_problem(name@, host@, port),
{
    if port == 0 {
        return fail_service(name, "probe port must not be 0");
    }
    if scan::is_blank(host) {
        return fail_service(name, "probe host must not be empty");
    }
    Ok(())
}

pub fn validate_probe(name: &str, probe: &Probe) -> (r: Result<(), String>)
    ensures
        problem_of(r) == probe_problem(name@, *probe),
{
    match (&probe.http_get, &probe.tcp_connect) {
        (Some(_), Some(_)) => {
            return fail_service(
                name,
                "probe must set exactly one of http-get / tcp-connect, found both",
            );
        },
        (None, None) => {
            return fail_service(
                name,
                "probe must set http-get or tcp-connect (remove the table to use liveness only)",
            );
        },
        (Some(http), None) => {
            if !text::same(http.scheme.as_str(), "http") {
                let mut what = "probe scheme ".to_string();
                what.append(text::debug_of(http.scheme.as_str()).as_str());
                what.append(" is not supported; only \"http\" is (local dev endpoints)");
                return fail_service(name, what.as_str());
            }
            match validate_endpoint(name, http.host.as_str(), http.port) {
                Ok(_) => {},
                Err(message) => return Err(message),
            }
        },
        (None, Some(tcp)) => {
            match validate_endpoint(name, tcp.host.as_str(), tcp.port) {
                Ok(_) => {},
                Err(message) => return Err(message),
            }
        },
    }
    if probe.failure_threshold == 0 {
        return fail_service(name, "probe failure-threshold must be at least 1");
    }
    if probe.period_seconds == 0 {
        return fail_service(name, "probe period-seconds must be at least 1");
    }
    if probe.timeout_seconds == 0 {
        return fail_service(name, "probe timeout-seconds must be at least 1");
    }
    Ok(())
}

// ------------------------------------------------------------------- loading
#[derive(Debug, Clone)]
pub struct LoadedConfig {
    pub config: Config,
    /// Fingerprint of the raw file plus every `env-file` it references, stored in
    /// state so `ps` can tell that a running service was started from an older
    /// revision of the configuration.
    pub hash: String,
}

/// The bytes of a file, when it can be read.
pub open spec fn file_bytes(file: Option<Vec<u8>>) -> Option<Seq<u8>> {
    match file {
        Some(bytes) => Some(bytes@),
        None => None,
    }
}

/// What each file holds.
pub open spec fn files_bytes(files: Seq<Option<Vec<u8>>>) -> Seq<Option<Seq<u8>>> {
    files.map_values(|file: Option<Vec<u8>>| file_bytes(file))
}

/// What a service's env-file adds to the revision: a null separator, the service
/// name, the resolved path and the bytes; an unreadable file stands for a fixed
/// marker.
pub open spec fn env_part(root: Seq<u8>, service: Service, file: Option<Seq<u8>>) -> Seq<u8> {
    match service.env_file {
        None => Seq::empty(),
        Some(_) => seq![0u8] + encode_utf8(service.name@) + seq![0u8] + env_path(service, root)
            + seq![0u8] + match file {
            Some(bytes) => bytes,
            None => encode_utf8("<unreadable>"@),
        },
    }
}

/// The bytes of a configuration revision.
pub open spec fn revision(
    root: Seq<u8>,
    raw: Seq<char>,
    services: Seq<Service>,
    files: Seq<Option<Seq<u8>>>,
) -> Seq<u8>
    decreases services.len(),
{
    if services.len() == 0 {
        encode_utf8(raw)
    } else {
        revision(root, raw, services.drop_last(), files.drop_last()) + env_part(
            root,
            services.last(),
            files.last(),
        )
    }
}

/// The text of a fingerprint.
pub open spec fn fingerprint_text(bytes: Seq<u8>) -> Seq<char> {
    "fnv1a64:"@ + util::hex(util::fnv(bytes) as nat, 16)
}

/// The configuration revision: the raw `agproc.toml` plus, for every service that
/// declares one, its `env-file`. `env_files` holds, for each service, the bytes
/// of its env-file; `None` when there is none to read.
///
/// Editing a `.env` therefore shows up exactly like editing `agproc.toml`, which
/// is what tells `ps` and `start` to say "config changed since start". A file that
/// cannot be read must never fail here: `ps`, `logs` and `stop` have to keep
/// working while the runner is the one that refuses to start.
pub fn fingerprint(
    root: &FsPath,
    raw: &str,
    config: &Config,
    env_files: &Vec<Option<Vec<u8>>>,
) -> (out: String)
    requires
        env_files@.len() == config.services@.len(),
    ensures
        out@ == fingerprint_text(
            revision(root@, raw@, config.services@, files_bytes(env_files@)),
        ),
{
    let ghost services = config.services@;
    let ghost files = files_bytes(env_files@);
    let mut buffer = bytes::copied(raw.as_bytes());
    for i in 0..config.services.len()
        invariant
            services == config.services@,
            files == files_bytes(env_files@),
            env_files@.len() == services.len(),
            buffer@ == revision(root@, raw@, services.take(i as int), files.take(i as int)),
    {
        let service = &config.services[i];
        let ghost before = buffer@;
        proof {
            assert(services.take(i + 1).drop_last() =~= services.take(i as int));
            assert(files.take(i + 1).drop_last() =~= files.take(i as int));
            assert(files.take(i + 1).last() == file_bytes(env_files@[i as int]));
        }
        if let Some(file) = &service.env_file {
            let path = root.join(file.as_str());
            buffer.push(0);
            bytes::push_bytes(&mut buffer, service.name.as_str().as_bytes());
            buffer.push(0);
            bytes::push_bytes(&mut buffer, path.bytes.as_slice());
            buffer.push(0);
            match &env_files[i] {
                Some(held) => bytes::push_bytes(&mut buffer, held.as_slice()),
                None => bytes::push_bytes(&mut buffer, "<unreadable>".as_bytes()),
            }
        }
        assert(buffer@ =~= before + env_part(root@, *service, files[i as int]));
    }
    proof {
        assert(services.take(services.len() as int) =~= services);
        assert(files.take(files.len() as int) =~= files);
    }
    let mut out = "fnv1a64:".to_string();
    util::push_hex(&mut out, util::fnv1a64(buffer.as_slice()), 16);
    out
}

/// Accept a configuration that was read from `path`, whose directory is `root`,
/// and take its fingerprint.
pub fn load(
    path: &FsPath,
    root: &FsPath,
    raw: &str,
    config: Config,
    env_files: &Vec<Option<Vec<u8>>>,
) -> (r: Result<LoadedConfig, String>)
    requires
        env_files@.len() == config.services@.len(),
    ensures
        match config_problem(config) {
            None => r matches Ok(loaded) && loaded.config == config && loaded.hash@
                == fingerprint_text(
                revision(root@, raw@, config.services@, files_bytes(env_files@)),
            ),
            Some(problem) => r matches Err(message) && message@ == "invalid config "@ + paths::shown(
                path@,
            ) + ": "@ + problem,
        },
{
    match validate(&config) {
        Ok(_) => {
            let hash = fingerprint(root, raw, &config, env_files);
            Ok(LoadedConfig { config, hash })
        },
        Err(problem) => {
            let mut out = "invalid config ".to_string();
            out.append(path.display().as_str());
            out.append(": ");
            out.append(problem.as_str());
            Err(out)
        },
    }
}

} // verus!

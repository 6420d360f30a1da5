//! Command line surface and top-level error reporting.

use vstd::prelude::*;
use vstd::string::*;


use crate::cmd::logs::Stream;
use crate::cmd::{init, logs, ps, skills, start};
use crate::exit;
use crate::logstore;
use crate::paths::FsPath;
use crate::runner;

verus! {

pub struct Cli {
    /// Path to agproc.toml (default: search this directory and its parents)
    pub config: Option<FsPath>,
    pub command: Command,
}

pub enum Command {
    /// Build (when needed) and run services, then wait for the probe
    Start(StartArgs),
    /// Stop running services, then build and run them again
    Restart(StartArgs),
    /// Stop services that are building or running
    Stop(TargetArgs),
    /// Show what agproc is running
    Ps(PsArgs),
    /// Show service logs
    Logs(LogsArgs),
    /// Print the agent guide for this project
    Skills(SkillsArgs),
    /// Create an agproc.toml template in this directory
    Init(InitArgs),
    /// Internal per-service supervisor (spawned by `start`)
    Runner(RunnerArgs),
}

pub struct StartArgs {
    /// Service names (default: every service)
    pub services: Vec<String>,
    /// Stop waiting after this many seconds (the runner keeps working)
    pub timeout_seconds: Option<u64>,
}

pub struct TargetArgs {
    /// Service names (default: every service)
    pub services: Vec<String>,
}

pub struct PsArgs {
    /// Service names (default: every service)
    pub services: Vec<String>,
    /// Machine readable output
    pub json: bool,
}

pub struct LogsArgs {
    /// Service names (default: every service)
    pub services: Vec<String>,
    /// Only the last N lines of the selected window
    pub tail: Option<usize>,
    /// Keep printing new output; returns when the service stops
    pub follow: bool,
    /// Which stream to show
    pub stream: StreamArg,
}

#[derive(Debug, Clone, Copy, PartialEq, Eq, Structural)]
pub enum StreamArg {
    Both,
    Stdout,
    Stderr,
}

pub struct SkillsArgs {
    /// Machine readable output (guide plus structured project data)
    pub json: bool,
}

pub struct InitArgs {
    /// Overwrite an existing agproc.toml
    pub force: bool,
}

pub struct RunnerArgs {
    /// Service to supervise
    pub service: String,
    /// Session generation (increments on every start/restart)
    pub generation: u64,
}

// ------------------------------------------------------------------- failure
/// A failure that maps to a documented exit code.
#[derive(Debug)]
pub struct Failure {
    pub code: i32,
    pub title: &'static str,
    pub message: String,
}

impl Failure {
    pub fn new(code: i32, title: &'static str, message: String) -> (out: Failure)
        ensures
            out.code == code,
            out.title == title,
            out.message == message,
    {
        Failure { code, title, message }
    }

    pub fn generic(message: String) -> (out: Failure)
        ensures
            out.code == exit::GENERIC,
            out.title@ == "ERROR"@,
            out.message == message,
    {
        Failure::new(exit::GENERIC, "ERROR", message)
    }

    pub fn config(message: String) -> (out: Failure)
        ensures
            out.code == exit::CONFIG,
            out.title@ == "CONFIG ERROR"@,
            out.message == message,
    {
        Failure::new(exit::CONFIG, "CONFIG ERROR", message)
    }

    /// What to print on stderr, in the agproc marker style so agents can
    /// recognise it.
    pub fn report(&self) -> (out: String)
        ensures
            out@ == logstore::marker_text(self.title@) + "\n"@ + self.message@ + "\n"@,
    {
        let mut out = logstore::marker_line(self.title);
        out.append(self.message.as_str());
        out.append("\n");
        out
    }
}

// ------------------------------------------------------------------ dispatch
/// What an invocation asks for.
pub enum Plan {
    Init(init::InitArgs),
    Runner(runner::Args),
    Skills(skills::Request),
    Start(start::Request),
    Stop(Vec<String>),
    Ps(ps::Request),
    Logs(logs::Request),
}

/// Where a template is written: the directory of the explicit path, or the
/// current one.
pub open spec fn init_root(
    explicit: Option<FsPath>,
    is_dir: bool,
    parent: Option<FsPath>,
    cwd: Seq<u8>,
) -> Seq<u8> {
    match explicit {
        Some(path) => if is_dir {
            path@
        } else {
            match parent {
                Some(dir) => if dir@.len() > 0 {
                    dir@
                } else {
                    cwd
                },
                None => cwd,
            }
        },
        None => cwd,
    }
}

/// The stream that an argument names.
pub open spec fn stream_of(arg: StreamArg) -> Stream {
    match arg {
        StreamArg::Both => Stream::Both,
        StreamArg::Stdout => Stream::Stdout,
        StreamArg::Stderr => Stream::Stderr,
    }
}

/// Turn the command line into what is to be done. `is_dir` and `parent` describe
/// the explicit path, when there is one.
pub fn dispatch(cli: Cli, is_dir: bool, parent: Option<FsPath>, cwd: FsPath) -> (r: Result<
    Plan,
    Failure,
>)
    ensures
        match cli.command {
            Command::Init(args) => r matches Ok(Plan::Init(plan)) && plan.force == args.force
                && plan.root@ == init_root(cli.config, is_dir, parent, cwd@),
            Command::Runner(args) => match cli.config {
                Some(config) => r == Ok::<Plan, Failure>(
                    Plan::Runner(
                        runner::Args {
                            config,
                            service: args.service,
                            generation: args.generation,
                        },
                    ),
                ),
                None => r matches Err(failure) && failure.code == exit::GENERIC
                    && failure.title@ == "ERROR"@ && failure.message@
                    == "__runner needs --config (it is an internal command)"@,
            },
            Command::Skills(args) => r == Ok::<Plan, Failure>(
                Plan::Skills(skills::Request { json: args.json }),
            ),
            Command::Start(args) => r == Ok::<Plan, Failure>(
                Plan::Start(
                    start::Request {
                        services: args.services,
                        restart: false,
                        timeout: args.timeout_seconds,
                    },
                ),
            ),
            Command::Restart(args) => r == Ok::<Plan, Failure>(
                Plan::Start(
                    start::Request {
                        services: args.services,
                        restart: true,
                        timeout: args.timeout_seconds,
                    },
                ),
            ),
            Command::Stop(args) => r == Ok::<Plan, Failure>(Plan::Stop(args.services)),
            Command::Ps(args) => r == Ok::<Plan, Failure>(
                Plan::Ps(ps::Request { services: args.services, json: args.json }),
            ),
            Command::Logs(args) => r == Ok::<Plan, Failure>(
                Plan::Logs(
                    logs::Request {
                        services: args.services,
                        tail: args.tail,
                        follow: args.follow,
                        stream: stream_of(args.stream),
                    },
                ),
            ),
        },
{
    let explicit = cli.config;
    match cli.command {
        Command::Init(args) => {
            let root = match explicit {
                Some(path) => if is_dir {
                    path
                } else {
                    match parent {
                        Some(dir) => if dir.bytes.len() > 0 {
                            dir
                        } else {
                            cwd
                        },
                        None => cwd,
                    }
                },
                None => cwd,
            };
            Ok(Plan::Init(init::InitArgs { root, force: args.force }))
        },
        Command::Runner(args) => match explicit {
            Some(config) => Ok(
                Plan::Runner(
                    runner::Args { config, service: args.service, generation: args.generation },
                ),
            ),
            None => Err(
                Failure::generic(
                    "__runner needs --config (it is an internal command)".to_string(),
                ),
            ),
        },
        Command::Skills(args) => Ok(Plan::Skills(skills::Request { json: args.json })),
        Command::Start(args) => Ok(
            Plan::Start(
                start::Request {
                    services: args.services,
                    restart: false,
                    timeout: args.timeout_seconds,
                },
            ),
        ),
        Command::Restart(args) => Ok(
            Plan::Start(
                start::Request {
                    services: args.services,
                    restart: true,
                    timeout: args.timeout_seconds,
                },
            ),
        ),
        Command::Stop(args) => Ok(Plan::Stop(args.services)),
        Command::Ps(args) => Ok(
            Plan::Ps(ps::Request { services: args.services, json: args.json }),
        ),
        Command::Logs(args) => {
            let stream = match args.stream {
                StreamArg::Both => Stream::Both,
                StreamArg::Stdout => Stream::Stdout,
                StreamArg::Stderr => Stream::Stderr,
            };
            Ok(
                Plan::Logs(
                    logs::Request {
                        services: args.services,
                        tail: args.tail,
                        follow: args.follow,
                        stream,
                    },
                ),
            )
        },
    }
}

} // verus!

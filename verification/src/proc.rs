//! Process primitives: what to spawn and how to read what came of it.
//!
//! Each stream of a child gets its own pseudo terminal, so that stdout and
//! stderr remain distinguishable and libc-based runtimes stay line buffered. The
//! caller owns the descriptors; this module decides.

use vstd::prelude::*;
use vstd::string::*;

use crate::envmap::EnvMap;
use crate::paths;
use crate::paths::FsPath;
use crate::text;

verus! {

/// Everything needed to launch one child.
pub struct SpawnSpec {
    pub program: String,
    pub args: Vec<String>,
    /// What is set on top of the inherited environment.
    pub env: EnvMap,
}

/// What every child is told, to reduce escape-sequence noise in captured logs;
/// services can override it.
pub open spec fn quiet_env() -> Map<Seq<char>, Seq<char>> {
    Map::<Seq<char>, Seq<char>>::empty().insert("TERM"@, "dumb"@).insert("NO_COLOR"@, "1"@).insert(
        "CLICOLOR"@,
        "0"@,
    ).insert("CLICOLOR_FORCE"@, "0"@)
}

/// Plan to spawn a child in a directory. It gets its own process group inside
/// the runner's session: a signal to the group reaches the service and every
/// descendant it spawned, without touching the runner that has to record the
/// outcome.
pub fn spawn(argv: &Vec<String>, cwd: &FsPath, cwd_is_dir: bool, env: &EnvMap) -> (r: Result<
    SpawnSpec,
    String,
>)
    requires
        env.wf(),
    ensures
        match r {
            Ok(spec) => {
                &&& argv@.len() > 0 && cwd_is_dir
                &&& spec.program@ == argv@[0]@
                &&& text::texts(spec.args@) == text::texts(argv@).skip(1)
                &&& spec.env.wf()
                &&& spec.env@ == quiet_env().union_prefer_right(env@)
            },
            Err(message) => if argv@.len() == 0 {
                message@ == "empty command"@
            } else {
                !cwd_is_dir && message@ == "working directory does not exist: "@ + paths::shown(
                    cwd@,
                ) + " (service cwd is relative to the project root)"@
            },
        },
{
    if argv.len() == 0 {
        return Err("empty command".to_string());
    }
    if !cwd_is_dir {
        let mut out = "working directory does not exist: ".to_string();
        out.append(cwd.display().as_str());
        out.append(" (service cwd is relative to the project root)");
        return Err(out);
    }
    let mut args: Vec<String> = Vec::new();
    let ghost rest = text::texts(argv@).skip(1);
    let mut i: usize = 1;
    while i < argv.len()
        invariant
            1 <= i <= argv@.len(),
            rest == text::texts(argv@).skip(1),
            text::texts(args@) == rest.take(i - 1),
        decreases argv.len() - i,
    {
        let ghost before = args@;
        args.push(argv[i].clone());
        proof {
            assert(text::texts(args@) =~= text::texts(before).push(argv@[i as int]@));
            assert(rest[i - 1] == argv@[i as int]@);
            assert(rest.take(i as int) =~= rest.take(i - 1).push(rest[i - 1]));
        }
        i = i + 1;
    }
    assert(rest.take(argv@.len() - 1) =~= rest);
    let mut vars = EnvMap::new();
    vars.insert("TERM".to_string(), "dumb".to_string());
    vars.insert("NO_COLOR".to_string(), "1".to_string());
    vars.insert("CLICOLOR".to_string(), "0".to_string());
    vars.insert("CLICOLOR_FORCE".to_string(), "0".to_string());
    assert(vars@ == quiet_env());
    vars.extend(env);
    Ok(SpawnSpec { program: argv[0].clone(), args, env: vars })
}

/// What is said when a child cannot be spawned.
pub fn spawn_failed(argv: &Vec<String>, reason: &str) -> (out: String)
    ensures
        out@ == "cannot spawn `"@ + text::joined(text::texts(argv@), " "@) + "`: "@ + reason@,
{
    let mut out = "cannot spawn `".to_string();
    out.append(text::join(argv, " ").as_str());
    out.append("`: ");
    out.append(reason);
    out
}

/// Exit code of a finished child: signal deaths are reported as `128 + signal`.
pub fn exit_code_of(code: Option<i32>, signal: Option<i32>) -> (r: i32)
    requires
        code is None ==> (signal matches Some(n) ==> n <= i32::MAX - 128),
    ensures
        r == match code {
            Some(code) => code as int,
            None => match signal {
                Some(n) => 128 + n,
                None => 128,
            },
        },
{
    match code {
        Some(code) => code,
        None => match signal {
            Some(n) => 128 + n,
            None => 128,
        },
    }
}

pub enum ReadOutcome {
    Data(Vec<u8>),
    Eof,
    WouldBlock,
}

/// The failures of a read that matter here.
#[derive(Debug, Clone, Copy, PartialEq, Eq, Structural)]
pub enum ReadErrno {
    /// Nothing is there right now.
    Again,
    /// A signal interrupted the read.
    Interrupted,
    Other,
}

/// What a read from a non-blocking pty master means. An interrupted read (by
/// SIGTERM from `agproc stop`, for instance) is "nothing right now"; Linux
/// reports a failure once every slave is closed, which is the end.
pub fn read_available(read: Result<Vec<u8>, ReadErrno>) -> (r: ReadOutcome)
    ensures
        match read {
            Ok(bytes) => if bytes@.len() == 0 {
                r == ReadOutcome::Eof
            } else {
                r == ReadOutcome::Data(bytes)
            },
            Err(errno) => if errno == ReadErrno::Other {
                r == ReadOutcome::Eof
            } else {
                r == ReadOutcome::WouldBlock
            },
        },
{
    match read {
        Ok(bytes) => if bytes.len() == 0 {
            ReadOutcome::Eof
        } else {
            ReadOutcome::Data(bytes)
        },
        Err(errno) => match errno {
            ReadErrno::Again | ReadErrno::Interrupted => ReadOutcome::WouldBlock,
            ReadErrno::Other => ReadOutcome::Eof,
        },
    }
}

} // verus!

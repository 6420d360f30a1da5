//! Project root discovery and the `.agproc/` runtime layout.
//!
//! `agproc.toml` is looked up from the current directory upwards, like `git`
//! and `cargo` do, so every command works from any subdirectory of the
//! project. All runtime files live in `<root>/.agproc/`.

use vstd::prelude::*;
use vstd::string::*;
use vstd::utf8::*;

use crate::bytes;
use crate::scan;
use crate::text;

verus! {

pub const CONFIG_FILE: &'static str = "agproc.toml";

pub const AGPROC_DIR: &'static str = ".agproc";

/// Bumped whenever the on-disk meaning changes; a mismatch makes agproc treat
/// the directory as having no usable history instead of misreading it.
pub const LAYOUT_VERSION: u32 = 1;

/// The version that state records and reports carry.
pub const VERSION: &'static str = "0.1.0";

// --------------------------------------------------------------------- paths
/// A Unix path: a byte string.
pub struct FsPath {
    pub bytes: Vec<u8>,
}

impl View for FsPath {
    type V = Seq<u8>;

    open spec fn view(&self) -> Seq<u8> {
        self.bytes@
    }
}

/// `leaf` seen from the directory `base`: an absolute `leaf` stands for itself.
pub open spec fn path_join(base: Seq<u8>, leaf: Seq<u8>) -> Seq<u8> {
    if leaf.len() > 0 && leaf[0] == 47 {
        leaf
    } else if base.len() > 0 && base.last() != 47 {
        base.push(47) + leaf
    } else {
        base + leaf
    }
}

impl FsPath {
    pub fn from_text(s: &str) -> (out: FsPath)
        ensures
            out@ == encode_utf8(s@),
    {
        FsPath { bytes: bytes::copied(s.as_bytes()) }
    }

    pub fn copy(&self) -> (out: FsPath)
        ensures
            out@ == self@,
    {
        FsPath { bytes: bytes::copied(self.bytes.as_slice()) }
    }

    pub fn join_path(&self, leaf: &FsPath) -> (out: FsPath)
        ensures
            out@ == path_join(self@, leaf@),
    {
        if leaf.bytes.len() > 0 && leaf.bytes[0] == 47 {
            return leaf.copy();
        }
        let mut out = bytes::copied(self.bytes.as_slice());
        if out.len() > 0 && out[out.len() - 1] != 47 {
            out.push(47);
        }
        bytes::push_bytes(&mut out, leaf.bytes.as_slice());
        FsPath { bytes: out }
    }

    pub fn join(&self, leaf: &str) -> (out: FsPath)
        ensures
            out@ == path_join(self@, encode_utf8(leaf@)),
    {
        self.join_path(&FsPath::from_text(leaf))
    }

    /// The path as text.
    pub fn display(&self) -> (out: String)
        ensures
            out@ == shown(self@),
            valid_utf8(self@) ==> out@ == decode_utf8(self@),
    {
        bytes::text_lossy(self.bytes.as_slice())
    }
}

/// A path as text.
pub open spec fn shown(path: Seq<u8>) -> Seq<char> {
    bytes::lossy_utf8(path)
}

/// Make `path` absolute without requiring it to exist: its canonical form when
/// it has one, else seen from the current directory. `None` when that
/// directory is needed and not known.
pub fn absolute(path: &FsPath, canonical: Option<FsPath>, cwd: Option<&FsPath>) -> (r: Option<
    FsPath,
>)
    ensures
        match canonical {
            Some(c) => r matches Some(p) && p@ == c@,
            None => if path@.len() > 0 && path@[0] == 47 {
                r matches Some(p) && p@ == path@
            } else {
                match cwd {
                    Some(d) => r matches Some(p) && p@ == path_join(d@, path@),
                    None => r is None,
                }
            },
        },
{
    match canonical {
        Some(c) => Some(c),
        None => if path.bytes.len() > 0 && path.bytes[0] == 47 {
            Some(path.copy())
        } else {
            match cwd {
                Some(d) => Some(d.join_path(path)),
                None => None,
            }
        },
    }
}

// ------------------------------------------------------------------- project
pub struct Project {
    pub root: FsPath,
    pub config_path: FsPath,
}

/// `<root>/.agproc`.
pub open spec fn runtime_dir(root: Seq<u8>) -> Seq<u8> {
    path_join(root, encode_utf8(AGPROC_DIR@))
}

/// `<root>/.agproc/<dir>`.
pub open spec fn runtime_subdir(root: Seq<u8>, dir: Seq<char>) -> Seq<u8> {
    path_join(runtime_dir(root), encode_utf8(dir))
}

/// `<root>/.agproc/<dir>/<service><suffix>`.
pub open spec fn runtime_file(
    root: Seq<u8>,
    dir: Seq<char>,
    service: Seq<char>,
    suffix: Seq<char>,
) -> Seq<u8> {
    path_join(runtime_subdir(root, dir), encode_utf8(service + suffix))
}

/// What the caller observed of the file system while looking for the project.
pub enum Lookup {
    /// The configuration file that was asked for, made absolute.
    Explicit { path: FsPath, is_file: bool, parent: Option<FsPath> },
    /// The current directory and its parents, innermost first, and whether
    /// each holds an `agproc.toml`.
    Upwards { dirs: Vec<FsPath>, has_config: Vec<bool> },
}

/// The first index at which `flags` is set.
pub open spec fn first_set(flags: Seq<bool>) -> Option<int>
    decreases flags.len(),
{
    if flags.len() == 0 {
        None
    } else if flags[0] {
        Some(0)
    } else {
        match first_set(flags.skip(1)) {
            Some(i) => Some(i + 1),
            None => None,
        }
    }
}

/// The root and the configuration file of the project that the observations
/// lead to.
pub open spec fn found(lookup: Lookup) -> Option<(Seq<u8>, Seq<u8>)> {
    match lookup {
        Lookup::Explicit { path, is_file, parent } => if is_file {
            Some(
                (
                    match parent {
                        Some(p) => p@,
                        None => encode_utf8("."@),
                    },
                    path@,
                ),
            )
        } else {
            None
        },
        Lookup::Upwards { dirs, has_config } => match first_set(has_config@) {
            Some(i) => Some((dirs@[i]@, path_join(dirs@[i]@, encode_utf8(CONFIG_FILE@)))),
            None => None,
        },
    }
}

/// An explicit path stands for the configuration file in it when it names a
/// directory.
pub fn explicit_config(path: &FsPath, is_dir: bool) -> (out: FsPath)
    ensures
        out@ == if is_dir {
            path_join(path@, encode_utf8(CONFIG_FILE@))
        } else {
            path@
        },
{
    if is_dir {
        path.join(CONFIG_FILE)
    } else {
        path.copy()
    }
}

impl Project {
    /// Discover the project, returning `None` when there is none (used by
    /// `agproc skills`, which must also work outside a project).
    pub fn discover_optional(lookup: &Lookup) -> (r: Option<Project>)
        requires
            lookup matches Lookup::Upwards { dirs, has_config } ==> dirs@.len()
                == has_config@.len(),
        ensures
            match r {
                Some(p) => found(*lookup) == Some((p.root@, p.config_path@)),
                None => found(*lookup) is None,
            },
    {
        match lookup {
            Lookup::Explicit { path, is_file, parent } => if *is_file {
                let root = match parent {
                    Some(p) => p.copy(),
                    None => FsPath::from_text("."),
                };
                Some(Project { root, config_path: path.copy() })
            } else {
                None
            },
            Lookup::Upwards { dirs, has_config } => {
                let mut i: usize = 0;
                assert(has_config@.skip(0) =~= has_config@);
                while i < has_config.len()
                    invariant
                        dirs@.len() == has_config@.len(),
                        i <= has_config@.len(),
                        first_set(has_config@) == match first_set(has_config@.skip(i as int)) {
                            Some(k) => Some(k + i),
                            None => None,
                        },
                        found(*lookup) == match first_set(has_config@) {
                            Some(i) => Some(
                                (dirs@[i]@, path_join(dirs@[i]@, encode_utf8(CONFIG_FILE@))),
                            ),
                            None => None,
                        },
                    decreases has_config.len() - i,
                {
                    assert(has_config@.skip(i as int).skip(1) =~= has_config@.skip(i + 1));
                    if has_config[i] {
                        return Some(
                            Project { root: dirs[i].copy(), config_path: dirs[i].join(CONFIG_FILE) },
                        );
                    }
                    i = i + 1;
                }
                None
            },
        }
    }

    /// Discover the project, failing when no `agproc.toml` can be found. `at`
    /// is the explicit path as it was given, or the current directory.
    pub fn discover(lookup: &Lookup, at: &FsPath) -> (r: Result<Project, String>)
        requires
            lookup matches Lookup::Upwards { dirs, has_config } ==> dirs@.len()
                == has_config@.len(),
        ensures
            match r {
                Ok(p) => found(*lookup) == Some((p.root@, p.config_path@)),
                Err(message) => found(*lookup) is None && message@ == not_found(*lookup, at@),
            },
    {
        match Project::discover_optional(lookup) {
            Some(project) => Ok(project),
            None => match lookup {
                Lookup::Explicit { .. } => {
                    let mut out = "config file not found: ".to_string();
                    out.append(at.display().as_str());
                    out.append(
                        "\n(use -C/--config or AGPROC_CONFIG to point at agproc.toml)",
                    );
                    Err(out)
                },
                Lookup::Upwards { .. } => {
                    let mut out = "no agproc.toml found in ".to_string();
                    out.append(at.display().as_str());
                    out.append(
                        " or any parent directory\n(run `agproc init` to create one)",
                    );
                    Err(out)
                },
            },
        }
    }

    pub fn agproc_dir(&self) -> (out: FsPath)
        ensures
            out@ == runtime_dir(self.root@),
    {
        self.root.join(AGPROC_DIR)
    }

    pub fn logs_dir(&self) -> (out: FsPath)
        ensures
            out@ == runtime_subdir(self.root@, "logs"@),
    {
        self.agproc_dir().join("logs")
    }

    pub fn state_dir(&self) -> (out: FsPath)
        ensures
            out@ == runtime_subdir(self.root@, "state"@),
    {
        self.agproc_dir().join("state")
    }

    pub fn lock_dir(&self) -> (out: FsPath)
        ensures
            out@ == runtime_subdir(self.root@, "lock"@),
    {
        self.agproc_dir().join("lock")
    }

    pub fn tmp_dir(&self) -> (out: FsPath)
        ensures
            out@ == runtime_subdir(self.root@, "tmp"@),
    {
        self.agproc_dir().join("tmp")
    }

    /// The run log of stdout.
    pub fn log_stdout(&self, service: &str) -> (out: FsPath)
        ensures
            out@ == runtime_file(self.root@, "logs"@, service@, ".stdout.log"@),
    {
        self.logs_dir().join(named(service, ".stdout.log").as_str())
    }

    /// The run log of stderr.
    pub fn log_stderr(&self, service: &str) -> (out: FsPath)
        ensures
            out@ == runtime_file(self.root@, "logs"@, service@, ".stderr.log"@),
    {
        self.logs_dir().join(named(service, ".stderr.log").as_str())
    }

    /// The transient console stream that `start` forwards to its stdout.
    pub fn console_stdout(&self, service: &str) -> (out: FsPath)
        ensures
            out@ == runtime_file(self.root@, "tmp"@, service@, ".console.stdout"@),
    {
        self.tmp_dir().join(named(service, ".console.stdout").as_str())
    }

    /// The transient console stream that `start` forwards to its stderr.
    pub fn console_stderr(&self, service: &str) -> (out: FsPath)
        ensures
            out@ == runtime_file(self.root@, "tmp"@, service@, ".console.stderr"@),
    {
        self.tmp_dir().join(named(service, ".console.stderr").as_str())
    }

    pub fn state_path(&self, service: &str) -> (out: FsPath)
        ensures
            out@ == runtime_file(self.root@, "state"@, service@, ".json"@),
    {
        self.state_dir().join(named(service, ".json").as_str())
    }

    pub fn stop_marker(&self, service: &str) -> (out: FsPath)
        ensures
            out@ == runtime_file(self.root@, "state"@, service@, ".stop-requested"@),
    {
        self.state_dir().join(named(service, ".stop-requested").as_str())
    }

    pub fn lock_path(&self, service: &str) -> (out: FsPath)
        ensures
            out@ == runtime_file(self.root@, "lock"@, service@, ".lock"@),
    {
        self.lock_dir().join(named(service, ".lock").as_str())
    }

    pub fn version_path(&self) -> (out: FsPath)
        ensures
            out@ == runtime_subdir(self.root@, "version"@),
    {
        self.agproc_dir().join("version")
    }

    /// The runtime directories that every command may rely on.
    pub fn layout_dirs(&self) -> (out: Vec<FsPath>)
        ensures
            out@.len() == 4,
            out@[0]@ == runtime_subdir(self.root@, "logs"@),
            out@[1]@ == runtime_subdir(self.root@, "state"@),
            out@[2]@ == runtime_subdir(self.root@, "lock"@),
            out@[3]@ == runtime_subdir(self.root@, "tmp"@),
    {
        vec![self.logs_dir(), self.state_dir(), self.lock_dir(), self.tmp_dir()]
    }

    /// Warning to print when the directory was written by an incompatible
    /// agproc; `None` when everything matches. `raw` is the text of the
    /// version file, when it can be read.
    pub fn layout_warning(&self, raw: Option<&str>) -> (r: Option<String>)
        ensures
            match r {
                Some(warning) => raw matches Some(body) && layout_of(scan::lines(body@)) matches Some(
                    layout,
                ) && layout != LAYOUT_VERSION && warning@ == incompatible(self.root@, layout),
                None => raw matches Some(body) ==> {
                    ||| layout_of(scan::lines(body@)) is None
                    ||| layout_of(scan::lines(body@)) == Some(LAYOUT_VERSION as int)
                },
            },
    {
        let body = match raw {
            Some(body) => body,
            None => return None,
        };
        let list = scan::split_lines(body);
        let ghost all = scan::lines(body@);
        let mut i: usize = 0;
        assert(all.skip(0) =~= all);
        while i < list.len()
            invariant
                text::texts(list@) == all,
                i <= list@.len(),
                raw == Some(body),
                all == scan::lines(body@),
                layout_of(all) == layout_of(all.skip(i as int)),
            decreases list.len() - i,
        {
            assert(all.skip(i as int).skip(1) =~= all.skip(i + 1));
            assert(all[i as int] == list@[i as int]@);
            match line_layout(list[i].as_str()) {
                Some(layout) => {
                    if layout == LAYOUT_VERSION {
                        return None;
                    }
                    let mut out = self.agproc_dir().display();
                    out.append(" was written by an incompatible agproc (layout ");
                    text::push_u64(&mut out, layout as u64);
                    out.append(", this build expects ");
                    text::push_u64(&mut out, LAYOUT_VERSION as u64);
                    out.append("); history in it is ignored");
                    return Some(out);
                },
                None => {},
            }
            i = i + 1;
        }
        None
    }
}

/// What a failed discovery says.
pub open spec fn not_found(lookup: Lookup, at: Seq<u8>) -> Seq<char> {
    match lookup {
        Lookup::Explicit { .. } => "config file not found: "@ + shown(at)
            + "\n(use -C/--config or AGPROC_CONFIG to point at agproc.toml)"@,
        Lookup::Upwards { .. } => "no agproc.toml found in "@ + shown(at)
            + " or any parent directory\n(run `agproc init` to create one)"@,
    }
}

/// `<service><suffix>`.
fn named(service: &str, suffix: &str) -> (out: String)
    ensures
        out@ == service@ + suffix@,
{
    let mut out = service.to_string();
    out.append(suffix);
    out
}

/// The layout number that one line of the version file declares.
pub open spec fn declared_layout(line: Seq<char>) -> Option<int> {
    if scan::starts(line, "layout = "@) {
        scan::unsigned(scan::trimmed(line.skip("layout = "@.len() as int)), 10, u32::MAX as int)
    } else {
        None
    }
}

/// The layout number of a version file: the first that a line declares.
pub open spec fn layout_of(lines: Seq<Seq<char>>) -> Option<int>
    decreases lines.len(),
{
    if lines.len() == 0 {
        None
    } else {
        match declared_layout(lines[0]) {
            Some(n) => Some(n),
            None => layout_of(lines.skip(1)),
        }
    }
}

fn line_layout(line: &str) -> (r: Option<u32>)
    ensures
        match r {
            Some(n) => declared_layout(line@) == Some(n as int),
            None => declared_layout(line@) is None,
        },
{
    match scan::strip_prefix(line, "layout = ") {
        Some(rest) => match scan::parse_unsigned(
            scan::trim(rest.as_str()).as_str(),
            10,
            u32::MAX as u64,
        ) {
            Some(n) => Some(n as u32),
            None => None,
        },
        None => None,
    }
}

/// The warning about a directory of another layout.
pub open spec fn incompatible(root: Seq<u8>, layout: int) -> Seq<char> {
    shown(runtime_dir(root)) + " was written by an incompatible agproc (layout "@ + text::decimal(
        layout as nat,
    ) + ", this build expects "@ + text::decimal(LAYOUT_VERSION as nat)
        + "); history in it is ignored"@
}

/// The body of the version file.
pub fn version_body() -> (out: String)
    ensures
        out@ == "layout = "@ + text::decimal(LAYOUT_VERSION as nat) + "\nagproc = "@ + VERSION@
            + "\n"@,
{
    let mut out = "layout = ".to_string();
    text::push_u64(&mut out, LAYOUT_VERSION as u64);
    out.append("\nagproc = ");
    out.append(VERSION);
    out.append("\n");
    out
}

// ---------------------------------------------------------------------- laws
/// A version file that this program writes is one that it accepts.
pub proof fn law_own_layout_is_accepted()
    ensures
        layout_of(
            scan::lines(
                "layout = "@ + text::decimal(LAYOUT_VERSION as nat) + "\nagproc = "@ + VERSION@
                    + "\n"@,
            ),
        ) == Some(LAYOUT_VERSION as int),
{
    let head = "layout = "@;
    let digits = text::decimal(LAYOUT_VERSION as nat);
    let body = head + digits + "\nagproc = "@ + VERSION@ + "\n"@;
    reveal_strlit("layout = ");
    reveal_strlit("\nagproc = ");
    let line = head + digits;
    let first = line.push('\n');
    let rest = "\nagproc = "@.skip(1) + VERSION@ + "\n"@;
    assert(body =~= first + rest);
    scan::lemma_lines_after_newline(first, rest);
    scan::lemma_decimal_reads_back(LAYOUT_VERSION as nat);
    assert(digits =~= seq!['1']);
    assert forall|i: int| 0 <= i < line.len() implies line[i] != '\n' by {
        if i >= head.len() {
            assert(line[i] == digits[i - head.len()]);
        }
    }
    scan::lemma_first_index_is(first, '\n', line.len() as int);
    assert(first.take(line.len() as int) =~= line);
    assert(first.skip(line.len() as int + 1) =~= Seq::empty());
    reveal_with_fuel(scan::lines, 2);
    assert(scan::lines(first) =~= seq![line]);
    let all = scan::lines(body);
    assert(all[0] == line);
    assert(line.skip(head.len() as int) =~= digits);
    assert(line.take(head.len() as int) =~= head);
    assert(scan::starts(line, head));
    scan::lemma_trimmed_line(digits);
    assert(declared_layout(line) == Some(1int));
}

} // verus!

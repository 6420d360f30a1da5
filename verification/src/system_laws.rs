//! What holds of paths, of the layout of the runtime directory, of what `/proc`
//! says, and of the command line.

use vstd::prelude::*;
use vstd::string::*;
use vstd::utf8::*;

use crate::cli;
use crate::cli::StreamArg;
use crate::cmd::logs::Stream;
use crate::lock;
use crate::paths;
use crate::paths::{FsPath, Lookup};
use crate::proc;
use crate::procinfo;
use crate::procinfo::ProcEntry;
use crate::scan;
use crate::text;
use crate::text_laws;

verus! {

// ---------------------------------------------------------------------- paths
/// A path that begins with a slash stands for itself. Any other is put behind the
/// directory, with one slash between the two.
pub proof fn law_relative_paths_are_put_behind_the_directory(base: Seq<u8>, leaf: Seq<u8>)
    ensures
        ({
            let path = paths::path_join(base, leaf);
            &&& leaf.len() > 0 && leaf[0] == 47 ==> path == leaf
            &&& leaf.len() == 0 || leaf[0] != 47 ==> {
                &&& base.len() == 0 ==> path == leaf
                &&& base.len() > 0 && base[base.len() - 1] == 47 ==> path == base + leaf
                &&& base.len() > 0 && base[base.len() - 1] != 47 ==> path == base + seq![47u8]
                    + leaf
            }
        }),
{
    let path = paths::path_join(base, leaf);
    if leaf.len() == 0 || leaf[0] != 47 {
        if base.len() == 0 {
            assert(path =~= leaf);
        } else if base[base.len() - 1] != 47 {
            assert(path =~= base + seq![47u8] + leaf);
        }
    }
}

/// Runtime files lie in `.agproc` under the project root, in a directory by kind,
/// and are called after their service.
pub proof fn law_runtime_files_lie_under_the_root(
    root: Seq<u8>,
    dir: Seq<char>,
    service: Seq<char>,
    suffix: Seq<char>,
)
    ensures
        paths::runtime_dir(root) == paths::path_join(root, encode_utf8(".agproc"@)),
        paths::runtime_subdir(root, dir) == paths::path_join(
            paths::path_join(root, encode_utf8(".agproc"@)),
            encode_utf8(dir),
        ),
        paths::runtime_file(root, dir, service, suffix) == paths::path_join(
            paths::path_join(
                paths::path_join(root, encode_utf8(".agproc"@)),
                encode_utf8(dir),
            ),
            encode_utf8(service + suffix),
        ),
        paths::CONFIG_FILE@ == "agproc.toml"@,
        paths::VERSION@ == "0.1.0"@,
        paths::LAYOUT_VERSION == 1,
{
}

proof fn lemma_first_set(flags: Seq<bool>)
    ensures
        match paths::first_set(flags) {
            Some(i) => 0 <= i < flags.len() && flags[i] && forall|j: int|
                0 <= j < i ==> !#[trigger] flags[j],
            None => forall|j: int| 0 <= j < flags.len() ==> !#[trigger] flags[j],
        },
    decreases flags.len(),
{
    if flags.len() > 0 && !flags[0] {
        let rest = flags.skip(1);
        lemma_first_set(rest);
        assert forall|j: int|
            0 <= j < flags.len() && (paths::first_set(flags) matches Some(i) ==> j
                < i) implies !#[trigger] flags[j] by {
            if j > 0 {
                assert(rest[j - 1] == flags[j]);
            }
        }
    }
}

/// The project is that of the innermost directory that holds a configuration file,
/// whatever lies further out; without one there is none.
pub proof fn law_the_nearest_configuration_counts(
    dirs: Vec<FsPath>,
    has_config: Vec<bool>,
    i: int,
)
    requires
        dirs@.len() == has_config@.len(),
    ensures
        ({
            let found = paths::found(Lookup::Upwards { dirs, has_config });
            &&& 0 <= i < has_config@.len() && has_config@[i] && (forall|j: int|
                0 <= j < i ==> !#[trigger] has_config@[j]) ==> found == Some(
                (
                    dirs@[i].bytes@,
                    paths::path_join(dirs@[i].bytes@, encode_utf8("agproc.toml"@)),
                ),
            )
            &&& (forall|j: int| 0 <= j < has_config@.len() ==> !#[trigger] has_config@[j])
                ==> found is None
        }),
{
    lemma_first_set(has_config@);
}

/// A configuration file that is asked for is the one that counts, if it is there;
/// its directory is the root.
pub proof fn law_an_explicit_configuration_counts(path: FsPath, parent: FsPath)
    ensures
        paths::found(Lookup::Explicit { path, is_file: true, parent: Some(parent) }) == Some(
            (parent.bytes@, path.bytes@),
        ),
        paths::found(Lookup::Explicit { path, is_file: true, parent: None }) == Some(
            (encode_utf8("."@), path.bytes@),
        ),
        paths::found(Lookup::Explicit { path, is_file: false, parent: Some(parent) }) is None,
        paths::found(Lookup::Explicit { path, is_file: false, parent: None }) is None,
{
}

/// A path is seen as its bytes and shown as their text.
pub proof fn law_paths_are_their_bytes(path: FsPath)
    ensures
        path@ == path.bytes@,
        paths::shown(path@) == crate::bytes::lossy_utf8(path.bytes@),
{
}

/// A failed search says what was looked for and where.
pub proof fn law_failed_searches_say_where(lookup: Lookup, at: Seq<u8>)
    ensures
        lookup is Explicit ==> paths::not_found(lookup, at) == "config file not found: "@
            + paths::shown(at) + "\n(use -C/--config or AGPROC_CONFIG to point at agproc.toml)"@,
        lookup is Upwards ==> paths::not_found(lookup, at) == "no agproc.toml found in "@
            + paths::shown(at) + " or any parent directory\n(run `agproc init` to create one)"@,
{
}

/// The layout of a version file is the number on the first line that declares one.
pub proof fn law_the_first_declared_layout_counts(line: Seq<char>, rest: Seq<Seq<char>>)
    ensures
        paths::layout_of(Seq::empty()) is None,
        paths::declared_layout(line) is Some ==> paths::layout_of(seq![line] + rest)
            == paths::declared_layout(line),
        paths::declared_layout(line) is None ==> paths::layout_of(seq![line] + rest)
            == paths::layout_of(rest),
{
    assert((seq![line] + rest).skip(1) =~= rest);
}

/// A line declares a layout when it says so and names a number.
pub proof fn law_layouts_are_declared_by_number(n: u32, line: Seq<char>)
    ensures
        paths::declared_layout("layout = "@ + text::decimal(n as nat)) == Some(n as int),
        line.len() < 9 || line.take(9) != "layout = "@ ==> paths::declared_layout(line) is None,
{
    reveal_strlit("layout = ");
    let head = "layout = "@;
    let digits = text::decimal(n as nat);
    let whole = head + digits;
    assert(whole.take(9) =~= head);
    assert(whole.skip(9) =~= digits);
    scan::lemma_decimal_reads_back(n as nat);
    scan::lemma_trimmed_line(digits);
}

/// A directory of another layout is named with both layouts.
pub proof fn law_other_layouts_are_named(root: Seq<u8>, layout: nat)
    ensures
        paths::incompatible(root, layout as int) == paths::shown(
            paths::path_join(root, encode_utf8(".agproc"@)),
        ) + " was written by an incompatible agproc (layout "@ + text::decimal(layout)
            + ", this build expects "@ + text::decimal(1) + "); history in it is ignored"@,
{
}

// ---------------------------------------------------------------------- locks
/// A lock is held by the process whose number stands in it, whatever white space
/// stands around the number.
pub proof fn law_locks_name_their_holder(raw: Seq<char>, pid: u32)
    ensures
        lock::holder_text(pid) == text::decimal(pid as nat) + "\n"@,
        scan::trimmed(raw) == text::decimal(pid as nat) ==> lock::named_holder(raw) == Some(
            pid as int,
        ),
        scan::trimmed(raw).len() == 0 ==> lock::named_holder(raw) is None,
{
    scan::lemma_decimal_reads_back(pid as nat);
}

// ------------------------------------------------------------------ processes
/// What is read of a process stands after the last parenthesis of its line, so
/// that nothing a command is called can be taken for it.
pub proof fn law_process_fields_stand_after_the_name(before: Seq<char>, tail: Seq<char>)
    requires
        !tail.contains(')'),
    ensures
        procinfo::stat_fields(Some(before.push(')') + tail)) == Some(scan::words(tail)),
        procinfo::stat_fields(Some(tail)) is None,
        procinfo::stat_fields(None) is None,
{
    text_laws::law_the_last_of_a_character_counts(before, ')', tail);
}

/// The state of a process is the first field after its name, its group the third
/// and its start time the twentieth.
pub proof fn law_process_fields_stand_in_their_places(
    stat: Option<Seq<char>>,
    fields: Seq<Seq<char>>,
)
    ensures
        procinfo::stat_fields(stat) == Some(fields) && fields.len() > 0 && fields[0].len() > 0
            ==> procinfo::state_letter(stat) == Some(fields[0][0]),
        procinfo::stat_fields(stat) == Some(fields) && fields.len() > 2 ==> procinfo::group_of(
            stat,
        ) == scan::signed(fields[2], -0x8000_0000, 0x7fff_ffff),
        procinfo::stat_fields(stat) == Some(fields) && fields.len() <= 2 ==> procinfo::group_of(
            stat,
        ) is None,
        procinfo::stat_fields(stat) == Some(fields) && fields.len() > 19
            ==> procinfo::start_ticks(stat) == scan::unsigned(
            fields[19],
            10,
            0xffff_ffff_ffff_ffff,
        ),
        procinfo::stat_fields(stat) == Some(fields) && fields.len() <= 19
            ==> procinfo::start_ticks(stat) is None,
        procinfo::stat_fields(stat) is None ==> procinfo::state_letter(stat) is None
            && procinfo::group_of(stat) is None && procinfo::start_ticks(stat) is None,
        procinfo::stat_fields(stat) == Some(Seq::<Seq<char>>::empty())
            ==> procinfo::state_letter(stat) is None,
{
}

/// A process is alive when its state can be read and is not that of a zombie.
pub proof fn law_zombies_are_not_alive(pid: u32, stat: Option<Seq<char>>)
    ensures
        procinfo::alive(pid, stat) <==> pid != 0 && procinfo::state_letter(stat) is Some
            && procinfo::state_letter(stat) != Some('Z'),
{
}

/// A line of the socket table shows a listener by its state, its port in
/// hexadecimal behind the last colon of its local address, and its inode.
pub proof fn law_listening_sockets_are_told_by_their_line(
    line: Seq<char>,
    address: Seq<char>,
    digits: Seq<char>,
    port: u16,
)
    requires
        scan::words(line).len() >= 10,
        !digits.contains(':'),
        scan::words(line)[1] == address.push(':') + digits,
    ensures
        scan::words(line)[3] == "0A"@ && scan::unsigned(digits, 16, 65535) == Some(port as int)
            ==> procinfo::line_inode(line, port) == scan::unsigned(
            scan::words(line)[9],
            10,
            0xffff_ffff_ffff_ffff,
        ),
        scan::words(line)[3] != "0A"@ ==> procinfo::line_inode(line, port) is None,
        scan::unsigned(digits, 16, 65535) != Some(port as int) ==> procinfo::line_inode(
            line,
            port,
        ) is None,
{
    text_laws::law_the_last_of_a_character_counts(address, ':', digits);
}

/// A line with fewer fields than a socket has shows none.
pub proof fn law_short_lines_show_no_socket(line: Seq<char>, port: u16)
    requires
        scan::words(line).len() < 10,
    ensures
        procinfo::line_inode(line, port) is None,
{
}

/// Every line of the table but the first is looked at.
pub proof fn law_the_heading_of_the_table_is_passed_over(
    heading: Seq<char>,
    line: Seq<char>,
    rest: Seq<char>,
    port: u16,
    inode: int,
)
    requires
        !heading.contains('\n'),
        !line.contains('\n'),
        line.len() == 0 || line[line.len() - 1] != '\r',
    ensures
        procinfo::line_inode(line, port) == Some(inode) ==> procinfo::table_shows(
            heading.push('\n') + (line.push('\n') + rest),
            port,
            inode,
        ),
        !procinfo::table_shows(heading.push('\n'), port, inode),
{
    let table = heading.push('\n') + (line.push('\n') + rest);
    text_laws::law_lines_of_text_are_cut_at_newlines(heading, line.push('\n') + rest);
    text_laws::law_lines_of_text_are_cut_at_newlines(line, rest);
    if procinfo::line_inode(line, port) == Some(inode) {
        assert(scan::lines(table)[1] == line);
    }
    text_laws::law_lines_of_text_are_cut_at_newlines(heading, Seq::empty());
    assert(heading.push('\n') + Seq::empty() =~= heading.push('\n'));
    assert(scan::lines(heading.push('\n')).len() == 1);
}

/// A process holds a socket when one of its descriptors links to it.
pub proof fn law_sockets_are_held_by_descriptor(
    entry: ProcEntry,
    inodes: Seq<u64>,
    l: int,
    i: int,
)
    ensures
        0 <= l < entry.links@.len() && 0 <= i < inodes.len() && entry.links@[l]@ == "socket:["@
            + text::decimal(inodes[i] as nat) + "]"@ ==> procinfo::holds(entry, inodes),
        inodes.len() == 0 || entry.links@.len() == 0 ==> !procinfo::holds(entry, inodes),
        procinfo::holds(entry, inodes) ==> exists|k: int, j: int|
            0 <= k < entry.links@.len() && 0 <= j < inodes.len() && (#[trigger] entry.links@[k])@
                == "socket:["@ + text::decimal(#[trigger] inodes[j] as nat) + "]"@,
        procinfo::entry_pid(entry) == scan::unsigned(entry.name@, 10, 0xffff_ffff),
{
    if 0 <= l < entry.links@.len() && 0 <= i < inodes.len() && entry.links@[l]@ == "socket:["@
        + text::decimal(inodes[i] as nat) + "]"@ {
        assert(entry.links@[l]@ == procinfo::socket_link(inodes[i]));
    }
}

/// The order of numbers is that of their values, and none stands twice.
pub proof fn law_increasing_numbers_are_apart(list: Seq<u64>, i: int, j: int)
    requires
        procinfo::increasing(procinfo::numbers(list)),
        0 <= i < j < list.len(),
    ensures
        list[i] < list[j],
{
    assert(procinfo::numbers(list)[i] < procinfo::numbers(list)[j]);
}

/// Every child is told that its output goes to no terminal of note, unless its
/// service says otherwise.
pub proof fn law_children_are_told_to_be_plain(env: Map<Seq<char>, Seq<char>>)
    ensures
        ({
            let vars = proc::quiet_env().union_prefer_right(env);
            &&& !env.contains_key("TERM"@) ==> vars["TERM"@] == "dumb"@
            &&& !env.contains_key("NO_COLOR"@) ==> vars["NO_COLOR"@] == "1"@
            &&& !env.contains_key("CLICOLOR"@) ==> vars["CLICOLOR"@] == "0"@
            &&& !env.contains_key("CLICOLOR_FORCE"@) ==> vars["CLICOLOR_FORCE"@] == "0"@
            &&& forall|name: Seq<char>| #[trigger]
                proc::quiet_env().contains_key(name) ==> name == "TERM"@ || name == "NO_COLOR"@
                    || name == "CLICOLOR"@ || name == "CLICOLOR_FORCE"@
        }),
{
    reveal_strlit("TERM");
    reveal_strlit("NO_COLOR");
    reveal_strlit("CLICOLOR");
    reveal_strlit("CLICOLOR_FORCE");
    assert("TERM"@.len() == 4 && "NO_COLOR"@.len() == 8 && "CLICOLOR"@.len() == 8
        && "CLICOLOR_FORCE"@.len() == 14);
    assert("NO_COLOR"@[0] != "CLICOLOR"@[0]);
}

// --------------------------------------------------------------- command line
/// A template is written into the directory that was asked for, or into that of
/// the file that was asked for, or into the current one.
pub proof fn law_templates_are_written_where_asked(
    path: FsPath,
    is_dir: bool,
    dir: FsPath,
    parent: Option<FsPath>,
    cwd: Seq<u8>,
)
    ensures
        cli::init_root(None, is_dir, parent, cwd) == cwd,
        cli::init_root(Some(path), true, parent, cwd) == path.bytes@,
        dir.bytes@.len() > 0 ==> cli::init_root(Some(path), false, Some(dir), cwd) == dir.bytes@,
        dir.bytes@.len() == 0 ==> cli::init_root(Some(path), false, Some(dir), cwd) == cwd,
        cli::init_root(Some(path), false, None, cwd) == cwd,
{
}

/// An argument names the stream that is called like it.
pub proof fn law_arguments_name_their_stream(arg: StreamArg)
    ensures
        arg == StreamArg::Both <==> cli::stream_of(arg) == Stream::Both,
        arg == StreamArg::Stdout <==> cli::stream_of(arg) == Stream::Stdout,
        arg == StreamArg::Stderr <==> cli::stream_of(arg) == Stream::Stderr,
{
}

} // verus!

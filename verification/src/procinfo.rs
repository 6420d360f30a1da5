//! What `/proc` says of processes and sockets. Linux only, which is all agproc
//! targets. The caller reads the files; this module understands them.

use vstd::prelude::*;
use vstd::string::*;
use vstd::utf8::*;

use crate::paths;
use crate::paths::FsPath;
use crate::scan;
use crate::text;

verus! {

/// `/proc/<pid>/<leaf>`.
pub fn proc_path(pid: u32, leaf: &str) -> (out: FsPath)
    ensures
        out@ == paths::path_join(
            paths::path_join(encode_utf8("/proc"@), encode_utf8(text::decimal(pid as nat))),
            encode_utf8(leaf@),
        ),
{
    FsPath::from_text("/proc").join(text::u64_text(pid as u64).as_str()).join(leaf)
}

/// The fields of `/proc/<pid>/stat` after the `comm` field, which may itself
/// contain spaces and parentheses; splitting on the last `)` is the documented
/// safe way to parse it.
pub open spec fn stat_fields(stat: Option<Seq<char>>) -> Option<Seq<Seq<char>>> {
    match stat {
        Some(line) => match scan::after_last(line, ')') {
            Some(tail) => Some(scan::words(tail)),
            None => None,
        },
        None => None,
    }
}

/// The field at an index.
pub open spec fn field(fields: Option<Seq<Seq<char>>>, at: int) -> Option<Seq<char>> {
    match fields {
        Some(list) => if at < list.len() {
            Some(list[at])
        } else {
            None
        },
        None => None,
    }
}

/// The fields of `/proc/<pid>/stat` after `comm`.
fn stat_tail(stat: Option<&str>) -> (r: Option<Vec<String>>)
    ensures
        match r {
            Some(fields) => stat_fields(text::opt_str(stat)) == Some(text::texts(fields@)),
            None => stat_fields(text::opt_str(stat)) is None,
        },
{
    match stat {
        Some(line) => match scan::text_after_last(line, ')') {
            Some(tail) => Some(scan::split_words(tail.as_str())),
            None => None,
        },
        None => None,
    }
}

/// The state letter of a process.
pub open spec fn state_letter(stat: Option<Seq<char>>) -> Option<char> {
    match field(stat_fields(stat), 0) {
        Some(word) => if word.len() > 0 {
            Some(word[0])
        } else {
            None
        },
        None => None,
    }
}

/// `state` field of `/proc/<pid>/stat`, e.g. `R`, `S`, `Z`.
pub fn pid_state(stat: Option<&str>) -> (r: Option<char>)
    ensures
        r == state_letter(text::opt_str(stat)),
{
    match stat_tail(stat) {
        Some(fields) => if fields.len() > 0 {
            assert(text::texts(fields@)[0] == fields@[0]@);
            let chars = text::chars_of(fields[0].as_str());
            if chars.len() > 0 {
                Some(chars[0])
            } else {
                None
            }
        } else {
            None
        },
        None => None,
    }
}

/// Alive means "exists and is not a zombie".
pub open spec fn alive(pid: u32, stat: Option<Seq<char>>) -> bool {
    pid != 0 && (state_letter(stat) matches Some(letter) && letter != 'Z')
}

/// Alive means "exists and is not a zombie". `stat` is the process' stat file,
/// when it can be read.
pub fn pid_alive(pid: u32, stat: Option<&str>) -> (r: bool)
    ensures
        r == alive(pid, text::opt_str(stat)),
{
    if pid == 0 {
        return false;
    }
    match pid_state(stat) {
        Some(letter) => letter != 'Z',
        None => false,
    }
}

/// The start time of a process.
pub open spec fn start_ticks(stat: Option<Seq<char>>) -> Option<int> {
    match field(stat_fields(stat), 19) {
        Some(word) => scan::unsigned(word, 10, u64::MAX as int),
        None => None,
    }
}

/// `starttime` (field 22 overall, index 19 after `comm`), in clock ticks since
/// boot. Compared against a recorded value it detects PID reuse.
pub fn pid_start_ticks(stat: Option<&str>) -> (r: Option<u64>)
    ensures
        match r {
            Some(ticks) => start_ticks(text::opt_str(stat)) == Some(ticks as int),
            None => start_ticks(text::opt_str(stat)) is None,
        },
{
    match stat_tail(stat) {
        Some(fields) => if fields.len() > 19 {
            assert(text::texts(fields@)[19] == fields@[19]@);
            scan::parse_unsigned(fields[19].as_str(), 10, u64::MAX)
        } else {
            None
        },
        None => None,
    }
}

/// The process group of a process.
pub open spec fn group_of(stat: Option<Seq<char>>) -> Option<int> {
    match field(stat_fields(stat), 2) {
        Some(word) => scan::signed(word, i32::MIN as int, i32::MAX as int),
        None => None,
    }
}

/// Process group id (field 5 overall, index 2 after `comm`).
pub fn pid_pgrp(stat: Option<&str>) -> (r: Option<i32>)
    ensures
        match r {
            Some(group) => group_of(text::opt_str(stat)) == Some(group as int),
            None => group_of(text::opt_str(stat)) is None,
        },
{
    match stat_tail(stat) {
        Some(fields) => if fields.len() > 2 {
            assert(text::texts(fields@)[2] == fields@[2]@);
            scan::parse_i32(fields[2].as_str())
        } else {
            None
        },
        None => None,
    }
}

/// Short command name from `/proc/<pid>/comm`, for diagnostics.
pub fn pid_comm(comm: Option<&str>) -> (out: String)
    ensures
        out@ == match comm {
            Some(s) => scan::trimmed(s@),
            None => Seq::empty(),
        },
{
    match comm {
        Some(s) => scan::trim(s),
        None => String::new(),
    }
}

// ------------------------------------------------------------ sorted, no twice
/// Strictly increasing.
pub open spec fn increasing(s: Seq<int>) -> bool {
    forall|i: int, j: int| 0 <= i < j < s.len() ==> s[i] < s[j]
}

/// The numbers of a list.
pub open spec fn numbers(s: Seq<u64>) -> Seq<int> {
    s.map_values(|n: u64| n as int)
}

/// Put a number into an increasing list, once.
pub fn insert_sorted(list: &mut Vec<u64>, n: u64)
    requires
        increasing(numbers(old(list)@)),
    ensures
        increasing(numbers(final(list)@)),
        forall|m: u64| final(list)@.contains(m) <==> old(list)@.contains(m) || m == n,
{
    let ghost before = list@;
    let mut at: usize = 0;
    while at < list.len() && list[at] < n
        invariant
            list@ == before,
            at <= list@.len(),
            forall|i: int| 0 <= i < at ==> list@[i] < n,
        decreases list.len() - at,
    {
        at = at + 1;
    }
    proof {
        assert forall|i: int, j: int| 0 <= i < j < before.len() implies before[i] < before[j] by {
            assert(numbers(before)[i] < numbers(before)[j]);
        }
    }
    if at < list.len() && list[at] == n {
        assert(before.contains(n)) by {
            assert(before[at as int] == n);
        }
        return ;
    }
    list.insert(at, n);
    proof {
        assert(list@ =~= before.insert(at as int, n));
        assert forall|i: int, j: int| 0 <= i < j < numbers(list@).len() implies numbers(list@)[i]
            < numbers(list@)[j] by {
            if at < before.len() {
                assert(n < before[at as int]);
            }
        }
        assert forall|m: u64| list@.contains(m) <==> before.contains(m) || m == n by {
            if before.contains(m) {
                let i = before.index_of(m);
                if i < at {
                    assert(list@[i] == m);
                } else {
                    assert(list@[i + 1] == m);
                }
            }
            assert(list@[at as int] == n);
            if list@.contains(m) {
                let i = list@.index_of(m);
                if i < at {
                    assert(before[i] == m);
                } else if i > at {
                    assert(before[i - 1] == m);
                }
            }
        }
    }
}

// -------------------------------------------------------------------- sockets
/// The inode of a `/proc/net/tcp` line that shows a listener on `port`.
pub open spec fn line_inode(line: Seq<char>, port: u16) -> Option<int> {
    let fields = scan::words(line);
    if fields.len() < 10 || fields[3] != "0A"@ {
        None
    } else {
        match scan::after_last(fields[1], ':') {
            Some(local) => if scan::unsigned(local, 16, u16::MAX as int) == Some(port as int) {
                scan::unsigned(fields[9], 10, u64::MAX as int)
            } else {
                None
            },
            None => None,
        }
    }
}

/// Does a table show a listener on `port` with that inode? Its first line is a
/// heading.
pub open spec fn table_shows(table: Seq<char>, port: u16, inode: int) -> bool {
    exists|i: int|
        1 <= i < scan::lines(table).len() && line_inode(#[trigger] scan::lines(table)[i], port)
            == Some(inode)
}

fn inode_of(line: &str, port: u16) -> (r: Option<u64>)
    ensures
        match r {
            Some(inode) => line_inode(line@, port) == Some(inode as int),
            None => line_inode(line@, port) is None,
        },
{
    let fields = scan::split_words(line);
    let ghost list = text::texts(fields@);
    if fields.len() < 10 {
        return None;
    }
    assert(list[3] == fields@[3]@ && list[1] == fields@[1]@ && list[9] == fields@[9]@);
    // 0A = TCP_LISTEN
    if !text::same(fields[3].as_str(), "0A") {
        return None;
    }
    match scan::text_after_last(fields[1].as_str(), ':') {
        Some(local) => match scan::parse_unsigned(local.as_str(), 16, u16::MAX as u64) {
            Some(local_port) => if local_port == port as u64 {
                scan::parse_unsigned(fields[9].as_str(), 10, u64::MAX)
            } else {
                None
            },
            None => None,
        },
        None => None,
    }
}

/// Inodes of sockets in LISTEN state bound to `port`, in order, from the text of
/// `/proc/net/tcp` and `/proc/net/tcp6` (IPv6 entries cover IPv4-mapped
/// listeners too).
pub fn listener_inodes_for_port(tables: &Vec<String>, port: u16) -> (out: Vec<u64>)
    ensures
        increasing(numbers(out@)),
        forall|inode: u64|
            #![trigger out@.contains(inode)]
            out@.contains(inode) <==> exists|t: int|
                0 <= t < tables@.len() && table_shows(#[trigger] tables@[t]@, port, inode as int),
{
    let mut inodes: Vec<u64> = Vec::new();
    for t in 0..tables.len()
        invariant
            increasing(numbers(inodes@)),
            forall|inode: u64|
                #![trigger inodes@.contains(inode)]
                inodes@.contains(inode) <==> exists|k: int|
                    0 <= k < t && table_shows(#[trigger] tables@[k]@, port, inode as int),
    {
        let list = scan::split_lines(tables[t].as_str());
        let ghost before = inodes@;
        let ghost all = scan::lines(tables@[t as int]@);
        let mut i: usize = 1;
        while i < list.len()
            invariant
                1 <= i,
                i <= list@.len() || i == 1,
                text::texts(list@) == all,
                all == scan::lines(tables@[t as int]@),
                t < tables@.len(),
                increasing(numbers(inodes@)),
                forall|inode: u64|
                    #![trigger inodes@.contains(inode)]
                    inodes@.contains(inode) <==> before.contains(inode) || exists|k: int|
                        1 <= k < i && k < all.len() && line_inode(#[trigger] all[k], port) == Some(
                            inode as int,
                        ),
            decreases list.len() - i,
        {
            assert(all[i as int] == list@[i as int]@);
            let ghost held = inodes@;
            match inode_of(list[i].as_str(), port) {
                Some(inode) => insert_sorted(&mut inodes, inode),
                None => {},
            }
            proof {
                assert forall|inode: u64|
                    #![trigger inodes@.contains(inode)]
                    inodes@.contains(inode) <==> before.contains(inode) || exists|k: int|
                        1 <= k < i + 1 && k < all.len() && line_inode(#[trigger] all[k], port)
                            == Some(inode as int) by {
                    assert(held.contains(inode) <==> before.contains(inode) || exists|k: int|
                        1 <= k < i && k < all.len() && line_inode(#[trigger] all[k], port) == Some(
                            inode as int,
                        ));
                    if line_inode(all[i as int], port) == Some(inode as int) {
                        assert(inodes@.contains(inode));
                    }
                    if inodes@.contains(inode) && !held.contains(inode) {
                        assert(line_inode(all[i as int], port) == Some(inode as int));
                    }
                }
            }
            i = i + 1;
        }
        proof {
            assert forall|inode: u64|
                #![trigger inodes@.contains(inode)]
                inodes@.contains(inode) <==> exists|k: int|
                    0 <= k < t + 1 && table_shows(#[trigger] tables@[k]@, port, inode as int) by {
                assert(before.contains(inode) <==> exists|k: int|
                    0 <= k < t && table_shows(#[trigger] tables@[k]@, port, inode as int));
                if inodes@.contains(inode) && !before.contains(inode) {
                    assert(table_shows(tables@[t as int]@, port, inode as int));
                }
                if table_shows(tables@[t as int]@, port, inode as int) {
                    let k = choose|k: int|
                        1 <= k < all.len() && line_inode(#[trigger] all[k], port) == Some(
                            inode as int,
                        );
                    assert(inodes@.contains(inode));
                }
            }
        }
    }
    inodes
}

/// A directory of `/proc` and what the descriptors below it link to.
pub struct ProcEntry {
    pub name: String,
    pub links: Vec<String>,
}

/// The name of a socket among descriptors.
pub open spec fn socket_link(inode: u64) -> Seq<char> {
    "socket:["@ + text::decimal(inode as nat) + "]"@
}

/// Does the entry belong to a process that holds one of the sockets?
pub open spec fn holds(entry: ProcEntry, inodes: Seq<u64>) -> bool {
    exists|l: int, i: int|
        0 <= l < entry.links@.len() && 0 <= i < inodes.len() && #[trigger] entry.links@[l]@
            == socket_link(#[trigger] inodes[i])
}

/// The PID that names an entry.
pub open spec fn entry_pid(entry: ProcEntry) -> Option<int> {
    scan::unsigned(entry.name@, 10, u32::MAX as int)
}

fn holds_any(entry: &ProcEntry, wanted: &Vec<String>, Ghost(inodes): Ghost<Seq<u64>>) -> (r: bool)
    requires
        wanted@.len() == inodes.len(),
        forall|i: int| 0 <= i < inodes.len() ==> (#[trigger] wanted@[i])@ == socket_link(inodes[i]),
    ensures
        r == holds(*entry, inodes),
{
    for l in 0..entry.links.len()
        invariant
            wanted@.len() == inodes.len(),
            forall|i: int|
                0 <= i < inodes.len() ==> (#[trigger] wanted@[i])@ == socket_link(inodes[i]),
            forall|k: int, i: int|
                0 <= k < l && 0 <= i < inodes.len() ==> (#[trigger] entry.links@[k])@
                    != socket_link(#[trigger] inodes[i]),
    {
        let found = text::any_same(wanted, entry.links[l].as_str());
        if found {
            proof {
                let i = choose|i: int|
                    0 <= i < text::texts(wanted@).len() && text::texts(wanted@)[i]
                        == entry.links@[l as int]@;
                assert(wanted@[i]@ == socket_link(inodes[i]));
            }
            return true;
        }
        proof {
            assert forall|i: int| 0 <= i < inodes.len() implies entry.links@[l as int]@
                != socket_link(#[trigger] inodes[i]) by {
                assert(text::texts(wanted@)[i] == wanted@[i]@);
            }
        }
    }
    false
}

/// PIDs holding any of `inodes`, in order, from what `/proc/<pid>/fd/*` links to.
///
/// This is the only way to map a socket inode to a process without shelling out
/// to `ss`/`lsof`, which agproc deliberately does not depend on.
pub fn pids_for_inodes(inodes: &Vec<u64>, entries: &Vec<ProcEntry>) -> (out: Vec<u64>)
    ensures
        increasing(numbers(out@)),
        forall|pid: u64|
            #![trigger out@.contains(pid)]
            out@.contains(pid) <==> exists|e: int|
                0 <= e < entries@.len() && entry_pid(#[trigger] entries@[e]) == Some(pid as int)
                    && holds(entries@[e], inodes@),
        forall|i: int| 0 <= i < out@.len() ==> #[trigger] out@[i] <= u32::MAX,
{
    let mut wanted: Vec<String> = Vec::new();
    for i in 0..inodes.len()
        invariant
            wanted@.len() == i,
            forall|k: int| 0 <= k < i ==> (#[trigger] wanted@[k])@ == socket_link(inodes@[k]),
    {
        let mut link = "socket:[".to_string();
        text::push_u64(&mut link, inodes[i]);
        link.append("]");
        wanted.push(link);
    }
    let mut pids: Vec<u64> = Vec::new();
    for e in 0..entries.len()
        invariant
            wanted@.len() == inodes@.len(),
            forall|k: int|
                0 <= k < inodes@.len() ==> (#[trigger] wanted@[k])@ == socket_link(inodes@[k]),
            increasing(numbers(pids@)),
            forall|pid: u64|
                #![trigger pids@.contains(pid)]
                pids@.contains(pid) <==> exists|k: int|
                    0 <= k < e && entry_pid(#[trigger] entries@[k]) == Some(pid as int) && holds(
                        entries@[k],
                        inodes@,
                    ),
    {
        let ghost before = pids@;
        match scan::parse_unsigned(entries[e].name.as_str(), 10, u32::MAX as u64) {
            Some(pid) => {
                if holds_any(&entries[e], &wanted, Ghost(inodes@)) {
                    insert_sorted(&mut pids, pid);
                }
            },
            None => {},
        }
        proof {
            assert forall|pid: u64|
                #![trigger pids@.contains(pid)]
                pids@.contains(pid) <==> exists|k: int|
                    0 <= k < e + 1 && entry_pid(#[trigger] entries@[k]) == Some(pid as int)
                        && holds(entries@[k], inodes@) by {
                assert(before.contains(pid) <==> exists|k: int|
                    0 <= k < e && entry_pid(#[trigger] entries@[k]) == Some(pid as int) && holds(
                        entries@[k],
                        inodes@,
                    ));
                assert(entry_pid(entries@[e as int]) == Some(pid as int) && holds(
                    entries@[e as int],
                    inodes@,
                ) ==> pids@.contains(pid));
            }
        }
    }
    proof {
        assert forall|i: int| 0 <= i < pids@.len() implies #[trigger] pids@[i] <= u32::MAX by {
            let pid = pids@[i];
            assert(pids@.contains(pid));
            let k = choose|k: int|
                0 <= k < entries@.len() && entry_pid(#[trigger] entries@[k]) == Some(pid as int)
                    && holds(entries@[k], inodes@);
            assert(entry_pid(entries@[k]) == Some(pid as int));
        }
    }
    pids
}

/// `(pid, comm)` pairs of the processes that listen on a local port. `comms`
/// holds each one's `/proc/<pid>/comm`, when it can be read.
pub fn listeners_on_port(pids: &Vec<u64>, comms: &Vec<Option<String>>) -> (out: Vec<(u32, String)>)
    requires
        pids@.len() == comms@.len(),
        forall|i: int| 0 <= i < pids@.len() ==> #[trigger] pids@[i] <= u32::MAX,
    ensures
        out@.len() == pids@.len(),
        forall|i: int|
            0 <= i < out@.len() ==> (#[trigger] out@[i]).0 == pids@[i] && out@[i].1@
                == match comms@[i] {
                Some(comm) => scan::trimmed(comm@),
                None => Seq::empty(),
            },
{
    let mut out: Vec<(u32, String)> = Vec::new();
    for i in 0..pids.len()
        invariant
            pids@.len() == comms@.len(),
            forall|k: int| 0 <= k < pids@.len() ==> #[trigger] pids@[k] <= u32::MAX,
            out@.len() == i,
            forall|k: int|
                0 <= k < i ==> (#[trigger] out@[k]).0 == pids@[k] && out@[k].1@ == match comms@[k] {
                    Some(comm) => scan::trimmed(comm@),
                    None => Seq::empty(),
                },
    {
        let comm = match &comms[i] {
            Some(comm) => pid_comm(Some(comm.as_str())),
            None => pid_comm(None),
        };
        out.push((pids[i] as u32, comm));
    }
    out
}

} // verus!

//! Per-service log files: append, truncate, rotate, follow.
//!
//! A service has two destinations, and keeping them apart is the point:
//!
//! - the **run logs** under `.agproc/logs/` hold *only* run-cmd output, and are
//!   truncated when a session starts, so `agproc logs` always replays the last
//!   run-cmd and nothing else;
//! - the **console stream** under `.agproc/tmp/` is what `agproc start` and
//!   `agproc restart` forward live: agproc's own markers and the build-cmd
//!   output live there, transient by construction.
//!
//! Agproc never writes its own lines into the run logs. This module decides what
//! is written where and read from where; the caller holds the files.

use vstd::prelude::*;
use vstd::string::*;
use vstd::utf8::*;

use crate::bytes;
use crate::lines;
use crate::lines::LineBuffer;

verus! {

/// One of agproc's own lines.
pub open spec fn marker_text(text: Seq<char>) -> Seq<char> {
    "===== "@ + text + " ====="@
}

/// Every line agproc itself produces has this shape, so agents can parse it.
pub fn marker_line(text: &str) -> (out: String)
    ensures
        out@ == marker_text(text@) + "\n"@,
{
    let mut out = "===== ".to_string();
    out.append(text);
    out.append(" =====");
    out.append("\n");
    out
}

/// A log line as it is printed: with its prefix, and ended.
pub open spec fn printed(prefix: Seq<char>, line: Seq<u8>) -> Seq<u8> {
    encode_utf8(prefix) + line + seq![10u8]
}

/// What to write to our own stdout or stderr for one log line.
pub fn emit(prefix: &str, line: &[u8]) -> (out: Vec<u8>)
    ensures
        out@ == printed(prefix@, line@),
{
    let mut out = bytes::copied(prefix.as_bytes());
    bytes::push_bytes(&mut out, line);
    out.push(10);
    assert(out@ =~= printed(prefix@, line@));
    out
}

// ----------------------------------------------------------------------- sink
/// The files of one service.
#[derive(Debug, Clone, Copy, PartialEq, Eq, Structural)]
pub enum LogFile {
    RunOut,
    RunErr,
    ConsoleOut,
    ConsoleErr,
}

/// What is done to a file.
pub enum SinkOp {
    /// Empty the file in place.
    Truncate(LogFile),
    /// Move the current file to `<name>.1` (replacing any previous one) and
    /// continue in a fresh file.
    Rotate(LogFile),
    Append(LogFile, Vec<u8>),
}

/// What is done to a file, as plain values.
pub enum OpView {
    Truncate(LogFile),
    Rotate(LogFile),
    Append(LogFile, Seq<u8>),
}

impl View for SinkOp {
    type V = OpView;

    open spec fn view(&self) -> OpView {
        match *self {
            SinkOp::Truncate(file) => OpView::Truncate(file),
            SinkOp::Rotate(file) => OpView::Rotate(file),
            SinkOp::Append(file, bytes) => OpView::Append(file, bytes@),
        }
    }
}

pub open spec fn ops_view(ops: Seq<SinkOp>) -> Seq<OpView> {
    ops.map_values(|op: SinkOp| op@)
}

/// A file that is written: how much it holds.
pub struct SinkFile {
    pub file: LogFile,
    pub len: u64,
}

/// A length after `n` more bytes. No file is longer than a `u64` can tell.
pub open spec fn grown(len: u64, n: nat) -> u64 {
    if len + n > u64::MAX {
        u64::MAX
    } else {
        (len + n) as u64
    }
}

/// Does a file have to make room before `n` more bytes? An empty one never has.
pub open spec fn rotates(len: u64, n: nat, max_bytes: u64) -> bool {
    max_bytes > 0 && len > 0 && len + n > max_bytes
}

/// What writing to a file does.
pub open spec fn write_ops(file: SinkFile, more: Seq<u8>, max_bytes: u64) -> Seq<OpView> {
    if rotates(file.len, more.len(), max_bytes) {
        seq![OpView::Rotate(file.file), OpView::Append(file.file, more)]
    } else {
        seq![OpView::Append(file.file, more)]
    }
}

/// A file after something was written to it.
pub open spec fn written(file: SinkFile, more: Seq<u8>, max_bytes: u64) -> SinkFile {
    SinkFile {
        len: if rotates(file.len, more.len(), max_bytes) {
            grown(0, more.len())
        } else {
            grown(file.len, more.len())
        },
        ..file
    }
}

impl SinkFile {
    fn write(&mut self, ops: &mut Vec<SinkOp>, more: &[u8], max_bytes: u64)
        ensures
            *final(self) == written(*old(self), more@, max_bytes),
            ops_view(final(ops)@) == ops_view(old(ops)@) + write_ops(
                *old(self),
                more@,
                max_bytes,
            ),
    {
        let ghost before = ops@;
        let file = self.file;
        let n = more.len() as u64;
        if max_bytes > 0 && self.len > 0 && self.len as u128 + n as u128 > max_bytes as u128 {
            ops.push(SinkOp::Rotate(file));
            self.len = 0;
        }
        ops.push(SinkOp::Append(file, bytes::copied(more)));
        self.len = if n > u64::MAX - self.len {
            u64::MAX
        } else {
            self.len + n
        };
        assert(ops_view(ops@) =~= ops_view(before) + write_ops(*old(self), more@, max_bytes));
    }
}

/// Append-only writer for one service's destinations.
///
/// - **run logs** (`logs/<svc>.stdout.log`, `logs/<svc>.stderr.log`): what
///   `agproc logs` replays. They hold run-cmd output only, and are truncated
///   when a session starts, so they always describe the last run-cmd.
/// - **console stream** (`tmp/<svc>.console.stdout`, `tmp/<svc>.console.stderr`):
///   what `agproc start`/`restart` forwards live. It also carries agproc's own
///   `===== ... =====` markers and the build-cmd output, which are therefore
///   kept out of the run logs. It lives in `tmp/` because it is transient.
pub struct LogSink {
    pub run_out: SinkFile,
    pub run_err: SinkFile,
    pub console_out: SinkFile,
    pub console_err: SinkFile,
    pub max_bytes: u64,
    pub write_run: bool,
    pub write_console: bool,
}

/// An empty file.
pub open spec fn empty_file(file: LogFile) -> SinkFile {
    SinkFile { file, len: 0 }
}

impl LogSink {
    /// Each place holds its own file.
    pub open spec fn wf(&self) -> bool {
        &&& self.run_out.file == LogFile::RunOut
        &&& self.run_err.file == LogFile::RunErr
        &&& self.console_out.file == LogFile::ConsoleOut
        &&& self.console_err.file == LogFile::ConsoleErr
    }

    /// Open both destinations and truncate them: a session always starts with
    /// empty logs, so nothing from a previous session can be mistaken for the
    /// current one.
    pub fn open(max_bytes: u64) -> (r: (LogSink, Vec<SinkOp>))
        ensures
            r.0 == opened(max_bytes),
            r.0.wf(),
            ops_view(r.1@) == seq![
                OpView::Truncate(LogFile::RunOut),
                OpView::Truncate(LogFile::RunErr),
                OpView::Truncate(LogFile::ConsoleOut),
                OpView::Truncate(LogFile::ConsoleErr),
            ],
    {
        let sink = LogSink {
            run_out: SinkFile { file: LogFile::RunOut, len: 0 },
            run_err: SinkFile { file: LogFile::RunErr, len: 0 },
            console_out: SinkFile { file: LogFile::ConsoleOut, len: 0 },
            console_err: SinkFile { file: LogFile::ConsoleErr, len: 0 },
            max_bytes,
            // The build phase writes to the console only: build output is not
            // part of the service's logs.
            write_run: false,
            write_console: true,
        };
        let ops = vec![
            SinkOp::Truncate(LogFile::RunOut),
            SinkOp::Truncate(LogFile::RunErr),
            SinkOp::Truncate(LogFile::ConsoleOut),
            SinkOp::Truncate(LogFile::ConsoleErr),
        ];
        assert(ops_view(ops@) =~= seq![
            OpView::Truncate(LogFile::RunOut),
            OpView::Truncate(LogFile::RunErr),
            OpView::Truncate(LogFile::ConsoleOut),
            OpView::Truncate(LogFile::ConsoleErr),
        ]);
        (sink, ops)
    }

    /// The run-cmd is about to start: truncate the run logs and begin writing
    /// to them (that is what makes them "the last run-cmd's logs").
    pub fn begin_run(&mut self) -> (ops: Vec<SinkOp>)
        requires
            old(self).wf(),
        ensures
            final(self).wf(),
            (*final(self), ops_view(ops@)) == sink_next(*old(self), SinkEvent::BeginRun),
    {
        self.run_out.len = 0;
        self.run_err.len = 0;
        self.write_run = true;
        let ops = vec![SinkOp::Truncate(LogFile::RunOut), SinkOp::Truncate(LogFile::RunErr)];
        assert(ops_view(ops@) =~= seq![
            OpView::Truncate(LogFile::RunOut),
            OpView::Truncate(LogFile::RunErr),
        ]);
        ops
    }

    /// Readiness has settled, so the CLI has stopped watching: stop duplicating
    /// run output into the console stream, which would otherwise grow for the
    /// whole lifetime of a long-running service. Markers keep being written.
    pub fn end_narrative(&mut self)
        requires
            old(self).wf(),
        ensures
            final(self).wf(),
            (*final(self), Seq::<OpView>::empty()) == sink_next(
                *old(self),
                SinkEvent::EndNarrative,
            ),
    {
        self.write_console = false;
    }

    pub fn marker(&mut self, text: &str) -> (ops: Vec<SinkOp>)
        requires
            old(self).wf(),
        ensures
            final(self).wf(),
            (*final(self), ops_view(ops@)) == sink_next(*old(self), SinkEvent::Marker(text@)),
    {
        let mut ops: Vec<SinkOp> = Vec::new();
        let line = marker_line(text);
        self.console_out.write(&mut ops, line.as_str().as_bytes(), self.max_bytes);
        assert(ops_view(ops@) =~= sink_next(*old(self), SinkEvent::Marker(text@)).1);
        ops
    }

    pub fn write_stdout(&mut self, more: &[u8]) -> (ops: Vec<SinkOp>)
        requires
            old(self).wf(),
        ensures
            final(self).wf(),
            (*final(self), ops_view(ops@)) == sink_next(*old(self), SinkEvent::Stdout(more@)),
    {
        let mut ops: Vec<SinkOp> = Vec::new();
        if self.write_run {
            self.run_out.write(&mut ops, more, self.max_bytes);
        }
        if self.write_console {
            self.console_out.write(&mut ops, more, self.max_bytes);
        }
        assert(ops_view(ops@) =~= sink_next(*old(self), SinkEvent::Stdout(more@)).1);
        ops
    }

    pub fn write_stderr(&mut self, more: &[u8]) -> (ops: Vec<SinkOp>)
        requires
            old(self).wf(),
        ensures
            final(self).wf(),
            (*final(self), ops_view(ops@)) == sink_next(*old(self), SinkEvent::Stderr(more@)),
    {
        let mut ops: Vec<SinkOp> = Vec::new();
        if self.write_run {
            self.run_err.write(&mut ops, more, self.max_bytes);
        }
        if self.write_console {
            self.console_err.write(&mut ops, more, self.max_bytes);
        }
        assert(ops_view(ops@) =~= sink_next(*old(self), SinkEvent::Stderr(more@)).1);
        ops
    }
}

/// The sink of a session that begins.
pub open spec fn opened(max_bytes: u64) -> LogSink {
    LogSink {
        run_out: empty_file(LogFile::RunOut),
        run_err: empty_file(LogFile::RunErr),
        console_out: empty_file(LogFile::ConsoleOut),
        console_err: empty_file(LogFile::ConsoleErr),
        max_bytes,
        write_run: false,
        write_console: true,
    }
}

/// What a sink is told.
pub enum SinkEvent {
    BeginRun,
    EndNarrative,
    Marker(Seq<char>),
    Stdout(Seq<u8>),
    Stderr(Seq<u8>),
}

/// What a sink does about it.
pub open spec fn sink_next(s: LogSink, event: SinkEvent) -> (LogSink, Seq<OpView>) {
    match event {
        SinkEvent::BeginRun => (
            LogSink {
                run_out: SinkFile { len: 0, ..s.run_out },
                run_err: SinkFile { len: 0, ..s.run_err },
                write_run: true,
                ..s
            },
            seq![OpView::Truncate(LogFile::RunOut), OpView::Truncate(LogFile::RunErr)],
        ),
        SinkEvent::EndNarrative => (LogSink { write_console: false, ..s }, Seq::empty()),
        SinkEvent::Marker(text) => {
            let line = encode_utf8(marker_text(text) + "\n"@);
            (
                LogSink { console_out: written(s.console_out, line, s.max_bytes), ..s },
                write_ops(s.console_out, line, s.max_bytes),
            )
        },
        SinkEvent::Stdout(more) => (
            LogSink {
                run_out: if s.write_run {
                    written(s.run_out, more, s.max_bytes)
                } else {
                    s.run_out
                },
                console_out: if s.write_console {
                    written(s.console_out, more, s.max_bytes)
                } else {
                    s.console_out
                },
                ..s
            },
            (if s.write_run {
                write_ops(s.run_out, more, s.max_bytes)
            } else {
                Seq::empty()
            }) + (if s.write_console {
                write_ops(s.console_out, more, s.max_bytes)
            } else {
                Seq::empty()
            }),
        ),
        SinkEvent::Stderr(more) => (
            LogSink {
                run_err: if s.write_run {
                    written(s.run_err, more, s.max_bytes)
                } else {
                    s.run_err
                },
                console_err: if s.write_console {
                    written(s.console_err, more, s.max_bytes)
                } else {
                    s.console_err
                },
                ..s
            },
            (if s.write_run {
                write_ops(s.run_err, more, s.max_bytes)
            } else {
                Seq::empty()
            }) + (if s.write_console {
                write_ops(s.console_err, more, s.max_bytes)
            } else {
                Seq::empty()
            }),
        ),
    }
}

// ------------------------------------------------------------------- follower
/// What the path of a log says now.
#[derive(Debug, Clone, Copy, PartialEq, Eq, Structural)]
pub enum PathNow {
    /// There is no file. `open_len` is the length of the file that is held
    /// open, when one is and it can be told.
    Gone { open_len: Option<u64> },
    Present { inode: u64, len: u64 },
}

/// What to read of a log.
#[derive(Debug, Clone, Copy, PartialEq, Eq)]
pub struct FollowPlan {
    /// Open the path anew first.
    pub reopen: bool,
    /// Read from the open file: the offset, and how many bytes.
    pub read: Option<(u64, u64)>,
    /// Let go of the open file afterwards.
    pub close: bool,
}

/// Reads new bytes appended to a log file, surviving rotation and truncation.
pub struct LogFollower {
    /// Is a file held open?
    pub open: bool,
    pub inode: u64,
    pub offset: u64,
}

/// What is to be read of `len` bytes after `offset`.
pub open spec fn unread(offset: u64, len: u64) -> Option<(u64, u64)> {
    if len <= offset {
        None
    } else {
        Some((offset, (len - offset) as u64))
    }
}

/// The offset from which a follower goes on in a file.
pub open spec fn resumed(f: LogFollower, inode: u64, len: u64) -> u64 {
    if f.inode != 0 && (!f.open || f.inode != inode) {
        // A different file is now at this path: start from its beginning.
        0
    } else if len < f.offset {
        0
    } else {
        f.offset
    }
}

/// What a follower does about the path, before it has read.
pub open spec fn follow_next(f: LogFollower, now: PathNow) -> (LogFollower, FollowPlan) {
    match now {
        PathNow::Gone { open_len } => (
            f,
            FollowPlan {
                reopen: false,
                read: match open_len {
                    Some(len) => if f.open {
                        unread(f.offset, len)
                    } else {
                        None
                    },
                    None => None,
                },
                close: true,
            },
        ),
        PathNow::Present { inode, len } => (
            LogFollower { open: true, inode, offset: resumed(f, inode, len) },
            FollowPlan {
                reopen: !f.open || f.inode != inode,
                read: unread(resumed(f, inode, len), len),
                close: false,
            },
        ),
    }
}

impl LogFollower {
    pub fn new() -> (out: LogFollower)
        ensures
            out == (LogFollower { open: false, inode: 0, offset: 0 }),
    {
        LogFollower { open: false, inode: 0, offset: 0 }
    }

    /// Start reading at `offset` (clamped to the current end of file). `found`
    /// is the inode of the file that was opened, when there is one, and `len`
    /// the length at its path.
    pub fn seek_to(&mut self, offset: u64, found: Option<u64>, len: u64)
        ensures
            *final(self) == (LogFollower {
                open: found is Some,
                inode: match found {
                    Some(inode) => inode,
                    None => 0,
                },
                offset: if offset <= len {
                    offset
                } else {
                    len
                },
            }),
    {
        self.open = found.is_some();
        self.inode = match found {
            Some(inode) => inode,
            None => 0,
        };
        self.offset = if offset <= len {
            offset
        } else {
            len
        };
    }

    /// What to read so as to get the bytes appended since the last time.
    ///
    /// Rotation and truncation are detected by looking at the *path*, not the
    /// open handle: a rotated file keeps its old inode alive for readers. When
    /// the file is gone (a finished session cleans its console stream up),
    /// anything already in the open handle is still readable, so it is handed
    /// over before letting go.
    pub fn read_new(&mut self, now: PathNow) -> (plan: FollowPlan)
        ensures
            (*final(self), plan) == follow_next(*old(self), now),
    {
        match now {
            PathNow::Gone { open_len } => {
                let read: Option<(u64, u64)> = match open_len {
                    Some(len) => if self.open && len > self.offset {
                        Some((self.offset, len - self.offset))
                    } else {
                        None
                    },
                    None => None,
                };
                FollowPlan { reopen: false, read, close: true }
            },
            PathNow::Present { inode, len } => {
                let reopen = !self.open || self.inode != inode;
                if reopen {
                    if self.inode != 0 {
                        self.offset = 0;
                    }
                    self.inode = inode;
                    self.open = true;
                }
                if len < self.offset {
                    self.offset = 0;
                }
                let read: Option<(u64, u64)> = if len <= self.offset {
                    None
                } else {
                    Some((self.offset, len - self.offset))
                };
                FollowPlan { reopen, read, close: false }
            },
        }
    }

    /// So many of the planned bytes were read.
    pub fn advance(&mut self, plan: &FollowPlan, read: u64)
        requires
            match plan.read {
                Some(planned) => read <= planned.1 && planned.0 + planned.1 <= u64::MAX
                    && old(self).offset == planned.0,
                None => read == 0,
            },
        ensures
            *final(self) == if plan.close {
                LogFollower { open: false, inode: 0, offset: 0 }
            } else {
                LogFollower { offset: (old(self).offset + read) as u64, ..*old(self) }
            },
    {
        if plan.close {
            self.open = false;
            self.inode = 0;
            self.offset = 0;
        } else {
            self.offset = self.offset + read;
        }
    }
}

// ---------------------------------------------------------------------- relay
/// A line to print: to stderr or to stdout, and its bytes.
pub struct Printed {
    pub to_stderr: bool,
    pub bytes: Vec<u8>,
}

/// Relays both log files of one service to our own stdout/stderr, preserving
/// the stream split and adding a prefix per line when several services are in
/// scope. Both streams share that prefix; they stay apart by destination.
/// Used by `agproc start` (live) and `agproc logs` (replay/follow).
pub struct LogRelay {
    pub out_lines: LineBuffer,
    pub err_lines: LineBuffer,
    pub prefix: String,
    pub enabled_out: bool,
    pub enabled_err: bool,
}

/// The lines of one stream, printed.
pub open spec fn printed_lines(to_stderr: bool, prefix: Seq<char>, list: Seq<Seq<u8>>) -> Seq<
    (bool, Seq<u8>),
> {
    list.map_values(|line: Seq<u8>| (to_stderr, printed(prefix, line)))
}

pub open spec fn printed_view(list: Seq<Printed>) -> Seq<(bool, Seq<u8>)> {
    list.map_values(|p: Printed| (p.to_stderr, p.bytes@))
}

/// Print the lines of one stream.
pub fn print_all(out: &mut Vec<Printed>, to_stderr: bool, prefix: &str, list: &Vec<Vec<u8>>)
    ensures
        printed_view(final(out)@) == printed_view(old(out)@) + printed_lines(
            to_stderr,
            prefix@,
            lines::views(list@),
        ),
{
    let ghost before = printed_view(out@);
    let ghost all = lines::views(list@);
    assert(before =~= before + printed_lines(to_stderr, prefix@, all.take(0)));
    for i in 0..list.len()
        invariant
            all == lines::views(list@),
            printed_view(out@) == before + printed_lines(to_stderr, prefix@, all.take(i as int)),
    {
        let ghost held = out@;
        let bytes = emit(prefix, list[i].as_slice());
        let ghost text = bytes@;
        out.push(Printed { to_stderr, bytes });
        proof {
            assert(printed_view(out@) =~= printed_view(held).push((to_stderr, text)));
            assert(all[i as int] == list@[i as int]@);
            assert(printed_lines(to_stderr, prefix@, all.take(i + 1)) =~= printed_lines(
                to_stderr,
                prefix@,
                all.take(i as int),
            ).push((to_stderr, text)));
        }
    }
    assert(all.take(all.len() as int) =~= all);
}

/// What a relay prints of one stream for `more` of it, when it is enabled.
pub open spec fn pumped(enabled: bool, buf: Seq<u8>, more: Seq<u8>) -> (Seq<Seq<u8>>, Seq<u8>) {
    if enabled && more.len() > 0 {
        (lines::ended_lines(buf + more), lines::unended(buf + more))
    } else {
        (Seq::empty(), buf)
    }
}

/// What a relay prints of an unended line.
pub open spec fn flushed(buf: Seq<u8>) -> Seq<Seq<u8>> {
    if buf.len() > 0 {
        seq![lines::bare(buf)]
    } else {
        Seq::empty()
    }
}

impl LogRelay {
    pub fn new(prefix: String) -> (out: LogRelay)
        ensures
            out.prefix == prefix,
            out.enabled_out && out.enabled_err,
            out.out_lines.buf@ == Seq::<u8>::empty(),
            out.err_lines.buf@ == Seq::<u8>::empty(),
    {
        LogRelay {
            out_lines: LineBuffer::new(),
            err_lines: LineBuffer::new(),
            prefix,
            enabled_out: true,
            enabled_err: true,
        }
    }

    /// Restrict which streams are forwarded (used by `logs --stream`).
    pub fn enable(&mut self, stdout: bool, stderr: bool)
        ensures
            *final(self) == (LogRelay { enabled_out: stdout, enabled_err: stderr, ..*old(self) }),
    {
        self.enabled_out = stdout;
        self.enabled_err = stderr;
    }

    /// Forward what was appended to both files since the last call.
    pub fn pump(&mut self, stdout: &[u8], stderr: &[u8]) -> (out: Vec<Printed>)
        ensures
            final(self).prefix == old(self).prefix,
            final(self).enabled_out == old(self).enabled_out,
            final(self).enabled_err == old(self).enabled_err,
            final(self).out_lines.buf@ == pumped(
                old(self).enabled_out,
                old(self).out_lines.buf@,
                stdout@,
            ).1,
            final(self).err_lines.buf@ == pumped(
                old(self).enabled_err,
                old(self).err_lines.buf@,
                stderr@,
            ).1,
            printed_view(out@) == printed_lines(
                false,
                old(self).prefix@,
                pumped(old(self).enabled_out, old(self).out_lines.buf@, stdout@).0,
            ) + printed_lines(
                true,
                old(self).prefix@,
                pumped(old(self).enabled_err, old(self).err_lines.buf@, stderr@).0,
            ),
    {
        let mut out: Vec<Printed> = Vec::new();
        if self.enabled_out && stdout.len() > 0 {
            let list = self.out_lines.push(stdout);
            print_all(&mut out, false, self.prefix.as_str(), &list);
        }
        let ghost first = printed_lines(
            false,
            old(self).prefix@,
            pumped(old(self).enabled_out, old(self).out_lines.buf@, stdout@).0,
        );
        assert(printed_view(out@) =~= first);
        if self.enabled_err && stderr.len() > 0 {
            let list = self.err_lines.push(stderr);
            print_all(&mut out, true, self.prefix.as_str(), &list);
        }
        assert(printed_view(out@) =~= first + printed_lines(
            true,
            old(self).prefix@,
            pumped(old(self).enabled_err, old(self).err_lines.buf@, stderr@).0,
        ));
        out
    }

    /// Print any trailing partial line (called once when forwarding stops).
    pub fn flush(&mut self) -> (out: Vec<Printed>)
        ensures
            final(self).prefix == old(self).prefix,
            final(self).enabled_out == old(self).enabled_out,
            final(self).enabled_err == old(self).enabled_err,
            final(self).out_lines.buf@ == Seq::<u8>::empty(),
            final(self).err_lines.buf@ == Seq::<u8>::empty(),
            printed_view(out@) == printed_lines(
                false,
                old(self).prefix@,
                flushed(old(self).out_lines.buf@),
            ) + printed_lines(true, old(self).prefix@, flushed(old(self).err_lines.buf@)),
    {
        let mut out: Vec<Printed> = Vec::new();
        match self.out_lines.flush() {
            Some(line) => {
                let bytes = emit(self.prefix.as_str(), line.as_slice());
                out.push(Printed { to_stderr: false, bytes });
            },
            None => {},
        }
        let ghost first = printed_lines(
            false,
            old(self).prefix@,
            flushed(old(self).out_lines.buf@),
        );
        assert(printed_view(out@) =~= first);
        match self.err_lines.flush() {
            Some(line) => {
                let bytes = emit(self.prefix.as_str(), line.as_slice());
                out.push(Printed { to_stderr: true, bytes });
            },
            None => {},
        }
        assert(printed_view(out@) =~= first + printed_lines(
            true,
            old(self).prefix@,
            flushed(old(self).err_lines.buf@),
        ));
        out
    }
}

} // verus!

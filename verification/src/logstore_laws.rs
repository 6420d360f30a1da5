//! What holds of every log file.

use vstd::prelude::*;
use vstd::string::*;
use vstd::utf8::*;

use crate::lines;
use crate::logstore;
use crate::logstore::{
    LogFile,
    LogFollower,
    LogSink,
    OpView,
    PathNow,
    Printed,
    SinkEvent,
    SinkFile,
    SinkOp,
};

verus! {

// ----------------------------------------------------------------------- sink
/// What the files of a service hold.
pub struct Files {
    pub run_out: Seq<u8>,
    pub run_err: Seq<u8>,
    pub console_out: Seq<u8>,
    pub console_err: Seq<u8>,
}

impl Files {
    pub open spec fn of(self, file: LogFile) -> Seq<u8> {
        match file {
            LogFile::RunOut => self.run_out,
            LogFile::RunErr => self.run_err,
            LogFile::ConsoleOut => self.console_out,
            LogFile::ConsoleErr => self.console_err,
        }
    }

    pub open spec fn with(self, file: LogFile, bytes: Seq<u8>) -> Files {
        match file {
            LogFile::RunOut => Files { run_out: bytes, ..self },
            LogFile::RunErr => Files { run_err: bytes, ..self },
            LogFile::ConsoleOut => Files { console_out: bytes, ..self },
            LogFile::ConsoleErr => Files { console_err: bytes, ..self },
        }
    }
}

/// The files after one operation.
pub open spec fn applied(files: Files, op: OpView) -> Files {
    match op {
        OpView::Truncate(file) => files.with(file, Seq::empty()),
        OpView::Rotate(file) => files.with(file, Seq::empty()),
        OpView::Append(file, bytes) => files.with(file, files.of(file) + bytes),
    }
}

/// The files after a list of operations.
pub open spec fn applied_all(files: Files, ops: Seq<OpView>) -> Files
    decreases ops.len(),
{
    if ops.len() == 0 {
        files
    } else {
        applied(applied_all(files, ops.drop_last()), ops.last())
    }
}

/// A sink and its files after what it was told, from the opening of the session.
pub open spec fn session(max_bytes: u64, events: Seq<SinkEvent>) -> (LogSink, Files)
    decreases events.len(),
{
    if events.len() == 0 {
        (
            logstore::opened(max_bytes),
            Files {
                run_out: Seq::empty(),
                run_err: Seq::empty(),
                console_out: Seq::empty(),
                console_err: Seq::empty(),
            },
        )
    } else {
        let (sink, files) = session(max_bytes, events.drop_last());
        let (next, ops) = logstore::sink_next(sink, events.last());
        (next, applied_all(files, ops))
    }
}

/// Has run-cmd begun?
pub open spec fn begun(events: Seq<SinkEvent>) -> bool
    decreases events.len(),
{
    events.len() > 0 && (events.last() is BeginRun || begun(events.drop_last()))
}

/// What the last run-cmd has written to stdout or stderr.
pub open spec fn run_output(events: Seq<SinkEvent>, to_stderr: bool) -> Seq<u8>
    decreases events.len(),
{
    if events.len() == 0 {
        Seq::empty()
    } else {
        let before = run_output(events.drop_last(), to_stderr);
        match events.last() {
            SinkEvent::BeginRun => Seq::empty(),
            SinkEvent::Stdout(bytes) => if !to_stderr && begun(events.drop_last()) {
                before + bytes
            } else {
                before
            },
            SinkEvent::Stderr(bytes) => if to_stderr && begun(events.drop_last()) {
                before + bytes
            } else {
                before
            },
            _ => before,
        }
    }
}

/// Is the narrative over?
pub open spec fn narrated(events: Seq<SinkEvent>) -> bool
    decreases events.len(),
{
    events.len() > 0 && (events.last() is EndNarrative || narrated(events.drop_last()))
}

/// The line of a marker, as bytes.
pub open spec fn marker_bytes(text: Seq<char>) -> Seq<u8> {
    vstd::utf8::encode_utf8(logstore::marker_text(text) + "\n"@)
}

/// What a session says on one stream of the console: its own lines, all on
/// stdout, and among them what the commands printed until the narrative was over.
pub open spec fn narrative(events: Seq<SinkEvent>, to_stderr: bool) -> Seq<u8>
    decreases events.len(),
{
    if events.len() == 0 {
        Seq::empty()
    } else {
        let earlier = events.drop_last();
        let before = narrative(earlier, to_stderr);
        match events.last() {
            SinkEvent::Marker(text) => if to_stderr {
                before
            } else {
                before + marker_bytes(text)
            },
            SinkEvent::Stdout(bytes) => if to_stderr || narrated(earlier) {
                before
            } else {
                before + bytes
            },
            SinkEvent::Stderr(bytes) => if !to_stderr || narrated(earlier) {
                before
            } else {
                before + bytes
            },
            _ => before,
        }
    }
}

/// Is one the end of the other?
pub open spec fn ends(whole: Seq<u8>, part: Seq<u8>) -> bool {
    part.len() <= whole.len() && part == whole.skip(whole.len() - part.len())
}

proof fn lemma_write_ops(files: Files, file: SinkFile, more: Seq<u8>, max_bytes: u64)
    ensures
        applied_all(files, logstore::write_ops(file, more, max_bytes)) == files.with(
            file.file,
            if logstore::rotates(file.len, more.len(), max_bytes) {
                more
            } else {
                files.of(file.file) + more
            },
        ),
{
    let ops = logstore::write_ops(file, more, max_bytes);
    reveal_with_fuel(applied_all, 3);
    if logstore::rotates(file.len, more.len(), max_bytes) {
        assert(ops.drop_last() =~= seq![OpView::Rotate(file.file)]);
        assert(ops.drop_last().drop_last() =~= Seq::empty());
        assert(Seq::<u8>::empty() + more =~= more);
    } else {
        assert(ops.drop_last() =~= Seq::empty());
    }
}

proof fn lemma_applied_both(files: Files, a: Seq<OpView>, b: Seq<OpView>)
    ensures
        applied_all(files, a + b) == applied_all(applied_all(files, a), b),
    decreases b.len(),
{
    if b.len() == 0 {
        assert(a + b =~= a);
    } else {
        assert((a + b).drop_last() =~= a + b.drop_last());
        lemma_applied_both(files, a, b.drop_last());
    }
}

/// The files after one thing a sink was told.
proof fn lemma_sink_step(sink: LogSink, files: Files, event: SinkEvent)
    requires
        sink.wf(),
    ensures
        ({
            let (next, ops) = logstore::sink_next(sink, event);
            let after = applied_all(files, ops);
            &&& next.wf()
            &&& next.max_bytes == sink.max_bytes
            &&& after.run_out == match event {
                SinkEvent::BeginRun => Seq::empty(),
                SinkEvent::Stdout(more) => if sink.write_run {
                    kept(files.run_out, sink.run_out, more, sink.max_bytes)
                } else {
                    files.run_out
                },
                _ => files.run_out,
            }
            &&& after.run_err == match event {
                SinkEvent::BeginRun => Seq::empty(),
                SinkEvent::Stderr(more) => if sink.write_run {
                    kept(files.run_err, sink.run_err, more, sink.max_bytes)
                } else {
                    files.run_err
                },
                _ => files.run_err,
            }
            &&& after.console_out == match event {
                SinkEvent::Marker(text) => kept(
                    files.console_out,
                    sink.console_out,
                    marker_bytes(text),
                    sink.max_bytes,
                ),
                SinkEvent::Stdout(more) => if sink.write_console {
                    kept(files.console_out, sink.console_out, more, sink.max_bytes)
                } else {
                    files.console_out
                },
                _ => files.console_out,
            }
            &&& after.console_err == match event {
                SinkEvent::Stderr(more) => if sink.write_console {
                    kept(files.console_err, sink.console_err, more, sink.max_bytes)
                } else {
                    files.console_err
                },
                _ => files.console_err,
            }
        }),
{
    let (next, ops) = logstore::sink_next(sink, event);
    let none = Seq::<OpView>::empty();
    match event {
        SinkEvent::BeginRun => {
            reveal_with_fuel(applied_all, 3);
            assert(ops.drop_last() =~= seq![OpView::Truncate(LogFile::RunOut)]);
            assert(ops.drop_last().drop_last() =~= none);
        },
        SinkEvent::EndNarrative => {},
        SinkEvent::Marker(text) => {
            let line = vstd::utf8::encode_utf8(logstore::marker_text(text) + "\n"@);
            lemma_write_ops(files, sink.console_out, line, sink.max_bytes);
        },
        SinkEvent::Stdout(more) => {
            let first = if sink.write_run {
                logstore::write_ops(sink.run_out, more, sink.max_bytes)
            } else {
                none
            };
            let second = if sink.write_console {
                logstore::write_ops(sink.console_out, more, sink.max_bytes)
            } else {
                none
            };
            lemma_applied_both(files, first, second);
            lemma_write_ops(files, sink.run_out, more, sink.max_bytes);
            lemma_write_ops(
                applied_all(files, first),
                sink.console_out,
                more,
                sink.max_bytes,
            );
        },
        SinkEvent::Stderr(more) => {
            let first = if sink.write_run {
                logstore::write_ops(sink.run_err, more, sink.max_bytes)
            } else {
                none
            };
            let second = if sink.write_console {
                logstore::write_ops(sink.console_err, more, sink.max_bytes)
            } else {
                none
            };
            lemma_applied_both(files, first, second);
            lemma_write_ops(files, sink.run_err, more, sink.max_bytes);
            lemma_write_ops(
                applied_all(files, first),
                sink.console_err,
                more,
                sink.max_bytes,
            );
        },
    }
}

spec fn kept(held: Seq<u8>, file: SinkFile, more: Seq<u8>, max_bytes: u64) -> Seq<u8> {
    if logstore::rotates(file.len, more.len(), max_bytes) {
        more
    } else {
        held + more
    }
}

proof fn lemma_ends_on(whole: Seq<u8>, part: Seq<u8>, more: Seq<u8>)
    requires
        ends(whole, part),
    ensures
        ends(whole + more, part + more),
        ends(whole + more, more),
{
    assert(part + more =~= (whole + more).skip((whole + more).len() - (part + more).len()));
    assert(more =~= (whole + more).skip((whole + more).len() - more.len()));
}

/// The run logs hold what the last run-cmd has printed, and nothing else: no
/// marker, no build output, nothing of an earlier session. Without a size cap
/// they hold all of it; with one, the end of it.
pub proof fn law_run_logs_hold_run_output_only(max_bytes: u64, events: Seq<SinkEvent>)
    ensures
        ({
            let (sink, files) = session(max_bytes, events);
            &&& ends(run_output(events, false), files.run_out)
            &&& ends(run_output(events, true), files.run_err)
            &&& max_bytes == 0 ==> files.run_out == run_output(events, false) && files.run_err
                == run_output(events, true)
            &&& sink.write_run == begun(events)
            &&& sink.max_bytes == max_bytes
            &&& sink.wf()
        }),
    decreases events.len(),
{
    if events.len() == 0 {
        let none = Seq::<u8>::empty();
        assert(none.skip(0) =~= none);
    } else {
        let earlier = events.drop_last();
        law_run_logs_hold_run_output_only(max_bytes, earlier);
        let (sink, files) = session(max_bytes, earlier);
        lemma_sink_step(sink, files, events.last());
        let none = Seq::<u8>::empty();
        assert(none.skip(0) =~= none);
        match events.last() {
            SinkEvent::Stdout(more) => {
                lemma_ends_on(run_output(earlier, false), files.run_out, more);
            },
            SinkEvent::Stderr(more) => {
                lemma_ends_on(run_output(earlier, true), files.run_err, more);
            },
            _ => {},
        }
    }
}

/// The console stream holds the whole narrative of a session: its own lines in
/// order, and between them what build-cmd and run-cmd printed, up to the moment
/// at which readiness has settled. Without a size cap it holds all of it; with
/// one, the end of it.
pub proof fn law_console_holds_the_narrative(max_bytes: u64, events: Seq<SinkEvent>)
    ensures
        ({
            let (sink, files) = session(max_bytes, events);
            &&& ends(narrative(events, false), files.console_out)
            &&& ends(narrative(events, true), files.console_err)
            &&& max_bytes == 0 ==> files.console_out == narrative(events, false)
                && files.console_err == narrative(events, true)
            &&& sink.write_console == !narrated(events)
        }),
    decreases events.len(),
{
    let none = Seq::<u8>::empty();
    assert(none.skip(0) =~= none);
    if events.len() > 0 {
        let earlier = events.drop_last();
        law_console_holds_the_narrative(max_bytes, earlier);
        law_run_logs_hold_run_output_only(max_bytes, earlier);
        let (sink, files) = session(max_bytes, earlier);
        lemma_sink_step(sink, files, events.last());
        match events.last() {
            SinkEvent::Marker(text) => {
                lemma_ends_on(narrative(earlier, false), files.console_out, marker_bytes(text));
            },
            SinkEvent::Stdout(more) => {
                lemma_ends_on(narrative(earlier, false), files.console_out, more);
            },
            SinkEvent::Stderr(more) => {
                lemma_ends_on(narrative(earlier, true), files.console_err, more);
            },
            _ => {},
        }
    }
}

/// A session starts from empty files, whatever they held before.
pub proof fn law_sessions_start_from_empty_files(files: Files, file: LogFile)
    ensures
        applied_all(
            files,
            seq![
                OpView::Truncate(LogFile::RunOut),
                OpView::Truncate(LogFile::RunErr),
                OpView::Truncate(LogFile::ConsoleOut),
                OpView::Truncate(LogFile::ConsoleErr),
            ],
        ).of(file) == Seq::<u8>::empty(),
{
    let ops = seq![
        OpView::Truncate(LogFile::RunOut),
        OpView::Truncate(LogFile::RunErr),
        OpView::Truncate(LogFile::ConsoleOut),
        OpView::Truncate(LogFile::ConsoleErr),
    ];
    reveal_with_fuel(applied_all, 5);
    assert(ops.drop_last() =~= seq![
        OpView::Truncate(LogFile::RunOut),
        OpView::Truncate(LogFile::RunErr),
        OpView::Truncate(LogFile::ConsoleOut),
    ]);
    assert(ops.drop_last().drop_last() =~= seq![
        OpView::Truncate(LogFile::RunOut),
        OpView::Truncate(LogFile::RunErr),
    ]);
    assert(ops.drop_last().drop_last().drop_last() =~= seq![OpView::Truncate(LogFile::RunOut)]);
    assert(ops.drop_last().drop_last().drop_last().drop_last() =~= Seq::empty());
}

/// Once readiness has settled, run output no longer reaches the console stream;
/// markers still do.
pub proof fn law_console_carries_only_markers_after_the_narrative(
    sink: LogSink,
    event: SinkEvent,
    i: int,
)
    requires
        sink.wf(),
        !sink.write_console,
        0 <= i < logstore::sink_next(sink, event).1.len(),
    ensures
        ({
            let op = logstore::sink_next(sink, event).1[i];
            let next = logstore::sink_next(sink, event).0;
            &&& !next.write_console
            &&& !(event is Marker) ==> match op {
                OpView::Truncate(file) => file != LogFile::ConsoleOut && file
                    != LogFile::ConsoleErr,
                OpView::Rotate(file) => file != LogFile::ConsoleOut && file != LogFile::ConsoleErr,
                OpView::Append(file, _) => file != LogFile::ConsoleOut && file
                    != LogFile::ConsoleErr,
            }
        }),
{
}

/// A file is rotated before it would pass the cap, so it holds no more than the
/// cap unless a single write is larger; 0 means no cap.
pub proof fn law_rotation_keeps_files_under_the_cap(
    file: SinkFile,
    more: Seq<u8>,
    max_bytes: u64,
)
    requires
        file.len <= max_bytes || max_bytes == 0,
    ensures
        max_bytes == 0 ==> logstore::write_ops(file, more, max_bytes) == seq![
            OpView::Append(file.file, more),
        ],
        max_bytes > 0 && more.len() <= max_bytes ==> logstore::written(
            file,
            more,
            max_bytes,
        ).len <= max_bytes,
{
}

// ------------------------------------------------------------------- follower
/// The bytes that a plan selects of a file.
pub open spec fn selected(content: Seq<u8>, read: Option<(u64, u64)>) -> Seq<u8> {
    match read {
        Some(part) => content.subrange(part.0 as int, part.0 + part.1),
        None => Seq::empty(),
    }
}

/// A follower that has read a file so far reads exactly what was appended since,
/// and then has read it all.
pub proof fn law_follower_reads_only_new_bytes(
    f: LogFollower,
    before: Seq<u8>,
    added: Seq<u8>,
)
    requires
        f.open,
        f.offset == before.len(),
        before.len() + added.len() <= u64::MAX,
    ensures
        ({
            let content = before + added;
            let (next, plan) = logstore::follow_next(
                f,
                PathNow::Present { inode: f.inode, len: content.len() as u64 },
            );
            &&& selected(content, plan.read) == added
            &&& !plan.reopen && !plan.close
            &&& next.offset + added.len() == content.len()
        }),
{
    let content = before + added;
    let (next, plan) = logstore::follow_next(
        f,
        PathNow::Present { inode: f.inode, len: content.len() as u64 },
    );
    assert(selected(content, plan.read) =~= added);
}

/// A follower reads another file at its path from the beginning, and so it does
/// a file that has become shorter than what was read of it.
pub proof fn law_follower_survives_rotation_and_truncation(
    f: LogFollower,
    inode: u64,
    content: Seq<u8>,
)
    requires
        f.open,
        f.inode != 0,
        content.len() <= u64::MAX,
        f.inode != inode || content.len() < f.offset,
    ensures
        ({
            let (next, plan) = logstore::follow_next(
                f,
                PathNow::Present { inode, len: content.len() as u64 },
            );
            &&& selected(content, plan.read) == content
            &&& plan.reopen == (f.inode != inode)
            &&& next.inode == inode
        }),
{
    let (next, plan) = logstore::follow_next(
        f,
        PathNow::Present { inode, len: content.len() as u64 },
    );
    assert(selected(content, plan.read) =~= content);
}

/// A follower hands over what is left of a file that was removed underneath it,
/// once.
pub proof fn law_follower_hands_over_an_unlinked_file(
    f: LogFollower,
    before: Seq<u8>,
    added: Seq<u8>,
)
    requires
        f.open,
        f.offset == before.len(),
        before.len() + added.len() <= u64::MAX,
    ensures
        ({
            let content = before + added;
            let (next, plan) = logstore::follow_next(
                f,
                PathNow::Gone { open_len: Some(content.len() as u64) },
            );
            selected(content, plan.read) == added && plan.close
        }),
        forall|open_len: Option<u64>|
            #[trigger] logstore::follow_next(
                LogFollower { open: false, inode: 0, offset: 0 },
                PathNow::Gone { open_len },
            ).1.read is None,
{
    let content = before + added;
    let (next, plan) = logstore::follow_next(
        f,
        PathNow::Gone { open_len: Some(content.len() as u64) },
    );
    assert(selected(content, plan.read) =~= added);
}

// ---------------------------------------------------------------------- relay
/// What a relay prints of a stream does not depend on the pieces in which it is
/// read.
pub proof fn law_relay_does_not_depend_on_chunks(buf: Seq<u8>, a: Seq<u8>, b: Seq<u8>)
    ensures
        ({
            let (first, rest) = logstore::pumped(true, buf, a);
            let (second, left) = logstore::pumped(true, rest, b);
            let (whole, end) = logstore::pumped(true, buf, a + b);
            first + second == whole && left == end
        }),
{
    let (first, rest) = logstore::pumped(true, buf, a);
    let (second, left) = logstore::pumped(true, rest, b);
    let (whole, end) = logstore::pumped(true, buf, a + b);
    if a.len() == 0 {
        assert(a + b =~= b);
        assert(first + second =~= whole);
    } else if b.len() == 0 {
        assert(a + b =~= a);
        assert(first + second =~= whole);
    } else {
        lines::law_lines_do_not_depend_on_chunks(buf + a, b);
        assert(buf + (a + b) =~= buf + a + b);
        assert(first + second =~= whole);
    }
}

/// A relay prints nothing of a stream that is not enabled. Of one that is it prints
/// the lines that have ended and keeps the rest for later; at the end it prints
/// what it has kept.
pub proof fn law_relays_print_ended_lines(buf: Seq<u8>, more: Seq<u8>)
    ensures
        logstore::pumped(false, buf, more) == (Seq::<Seq<u8>>::empty(), buf),
        more.len() == 0 ==> logstore::pumped(true, buf, more) == (Seq::<Seq<u8>>::empty(), buf),
        more.len() > 0 ==> logstore::pumped(true, buf, more) == (
            lines::ended_lines(buf + more),
            lines::unended(buf + more),
        ),
        buf.len() == 0 ==> logstore::flushed(buf).len() == 0,
        buf.len() > 0 && buf[buf.len() - 1] != 13 ==> logstore::flushed(buf) == seq![buf],
        buf.len() > 0 && buf[buf.len() - 1] == 13 ==> logstore::flushed(buf) == seq![
            buf.take(buf.len() - 1),
        ],
{
    if buf.len() > 0 && buf[buf.len() - 1] == 13 {
        assert(lines::bare(buf) =~= buf.take(buf.len() - 1));
    }
}

/// A printed line is the line with the prefix before it and a newline after it,
/// and goes to the stream that it came from; the lines keep their order.
pub proof fn law_lines_are_printed_behind_their_prefix(
    to_stderr: bool,
    prefix: Seq<char>,
    list: Seq<Seq<u8>>,
    i: int,
)
    ensures
        logstore::printed_lines(to_stderr, prefix, list).len() == list.len(),
        0 <= i < list.len() ==> logstore::printed_lines(to_stderr, prefix, list)[i] == (
            to_stderr,
            encode_utf8(prefix) + list[i] + seq![10u8],
        ),
{
}

/// What is printed is seen as the bytes and where they go.
pub proof fn law_printed_lines_are_seen_as_they_are(list: Seq<Printed>, i: int)
    ensures
        logstore::printed_view(list).len() == list.len(),
        0 <= i < list.len() ==> logstore::printed_view(list)[i] == (
            list[i].to_stderr,
            list[i].bytes@,
        ),
{
}

// --------------------------------------------------------------------- writing
/// What is done to the files is seen one by one: on which file, and with which
/// bytes.
pub proof fn law_operations_are_seen_as_they_are(ops: Seq<SinkOp>, i: int)
    ensures
        logstore::ops_view(ops).len() == ops.len(),
        0 <= i < ops.len() ==> match ops[i] {
            SinkOp::Truncate(file) => logstore::ops_view(ops)[i] == OpView::Truncate(file),
            SinkOp::Rotate(file) => logstore::ops_view(ops)[i] == OpView::Rotate(file),
            SinkOp::Append(file, bytes) => logstore::ops_view(ops)[i] == OpView::Append(
                file,
                bytes@,
            ),
        },
{
}

/// A file that holds something is rotated exactly when what is added would take it
/// past the cap, and then begins anew; an empty file never is.
pub proof fn law_files_are_rotated_at_the_cap(file: SinkFile, more: Seq<u8>, max_bytes: u64)
    requires
        file.len + more.len() <= u64::MAX,
    ensures
        ({
            let full = max_bytes > 0 && file.len > 0 && file.len + more.len() > max_bytes;
            let ops = logstore::write_ops(file, more, max_bytes);
            let after = logstore::written(file, more, max_bytes);
            &&& full ==> ops == seq![
                OpView::Rotate(file.file),
                OpView::Append(file.file, more),
            ] && after.len == more.len()
            &&& !full ==> ops == seq![OpView::Append(file.file, more)] && after.len == file.len
                + more.len()
            &&& after.file == file.file
        }),
{
}

/// A session begins with empty files and writes to the console only, until its run
/// begins; from then on both are written, until the narrative ends.
pub proof fn law_sinks_are_switched_by_the_session(max_bytes: u64, s: LogSink, text: Seq<char>)
    ensures
        ({
            let first = logstore::opened(max_bytes);
            let run = logstore::sink_next(s, SinkEvent::BeginRun);
            let quiet = logstore::sink_next(s, SinkEvent::EndNarrative);
            &&& first.wf() && first.max_bytes == max_bytes
            &&& first.run_out.len == 0 && first.run_err.len == 0 && first.console_out.len == 0
                && first.console_err.len == 0
            &&& !first.write_run && first.write_console
            &&& run.0.write_run && run.0.write_console == s.write_console
            &&& run.0.run_out.len == 0 && run.0.run_err.len == 0
            &&& run.0.console_out == s.console_out && run.0.console_err == s.console_err
            &&& run.1 == seq![
                OpView::Truncate(LogFile::RunOut),
                OpView::Truncate(LogFile::RunErr),
            ]
            &&& !quiet.0.write_console && quiet.0.write_run == s.write_run && quiet.1.len() == 0
            &&& quiet.0.run_out == s.run_out && quiet.0.console_out == s.console_out
        }),
        logstore::marker_text(text) == "===== "@ + text + " ====="@,
{
}

/// Each stream is written to its own files and to no other, and a marker to the
/// console of stdout.
pub proof fn law_streams_are_written_to_their_own_files(
    s: LogSink,
    more: Seq<u8>,
    text: Seq<char>,
    i: int,
)
    requires
        s.wf(),
    ensures
        ({
            let out = logstore::sink_next(s, SinkEvent::Stdout(more));
            let err = logstore::sink_next(s, SinkEvent::Stderr(more));
            let own = logstore::sink_next(s, SinkEvent::Marker(text));
            &&& 0 <= i < out.1.len() ==> (of_file(out.1[i]) == LogFile::RunOut && s.write_run) || (
            of_file(out.1[i]) == LogFile::ConsoleOut && s.write_console)
            &&& 0 <= i < err.1.len() ==> (of_file(err.1[i]) == LogFile::RunErr && s.write_run) || (
            of_file(err.1[i]) == LogFile::ConsoleErr && s.write_console)
            &&& 0 <= i < own.1.len() ==> of_file(own.1[i]) == LogFile::ConsoleOut
            &&& s.write_run ==> out.1.contains(OpView::Append(LogFile::RunOut, more))
                && err.1.contains(OpView::Append(LogFile::RunErr, more))
            &&& s.write_console ==> out.1.contains(OpView::Append(LogFile::ConsoleOut, more))
                && err.1.contains(OpView::Append(LogFile::ConsoleErr, more))
            &&& own.1.contains(
                OpView::Append(
                    LogFile::ConsoleOut,
                    encode_utf8("===== "@ + text + " ====="@ + "\n"@),
                ),
            )
        }),
{
    let out = logstore::sink_next(s, SinkEvent::Stdout(more));
    let err = logstore::sink_next(s, SinkEvent::Stderr(more));
    let own = logstore::sink_next(s, SinkEvent::Marker(text));
    assert(own.1[own.1.len() - 1] is Append);
    if s.write_run {
        let n = logstore::write_ops(s.run_out, more, s.max_bytes).len() as int;
        let m = logstore::write_ops(s.run_err, more, s.max_bytes).len() as int;
        assert(out.1[n - 1] == OpView::Append(LogFile::RunOut, more));
        assert(err.1[m - 1] == OpView::Append(LogFile::RunErr, more));
    }
    if s.write_console {
        assert(out.1[out.1.len() - 1] == OpView::Append(LogFile::ConsoleOut, more));
        assert(err.1[err.1.len() - 1] == OpView::Append(LogFile::ConsoleErr, more));
    }
}

/// The file that something is done to.
pub open spec fn of_file(op: OpView) -> LogFile {
    match op {
        OpView::Truncate(file) => file,
        OpView::Rotate(file) => file,
        OpView::Append(file, _) => file,
    }
}

/// A follower that has not seen a file yet goes on from where it was told to, and
/// opens the file; one that has let go of a file holds nothing.
pub proof fn law_followers_begin_where_they_are_told(offset: u64, inode: u64, len: u64)
    requires
        offset <= len,
    ensures
        ({
            let f = LogFollower { open: false, inode: 0, offset };
            let (next, plan) = logstore::follow_next(f, PathNow::Present { inode, len });
            &&& plan.reopen && !plan.close
            &&& next.open && next.inode == inode && next.offset == offset
            &&& offset < len ==> plan.read == Some((offset, (len - offset) as u64))
            &&& offset == len ==> plan.read is None
        }),
        ({
            let f = LogFollower { open: true, inode, offset };
            let (next, plan) = logstore::follow_next(f, PathNow::Gone { open_len: None });
            next == f && plan.read is None && plan.close && !plan.reopen
        }),
{
}

} // verus!

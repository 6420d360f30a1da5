//! `agproc logs` — replay and follow the output of a service's run-cmd.
//!
//! The run logs are truncated when a session starts, so the whole file is
//! exactly the last run-cmd's output: no agproc markers, no build output, no
//! earlier sessions. The two streams are replayed independently and keep their
//! original destinations.

use vstd::prelude::*;
use vstd::string::*;

use crate::lines;
use crate::logstore;
use crate::logstore::{LogRelay, Printed};
use crate::paths;
use crate::paths::FsPath;

pub use crate::lines::tail_start_offset;

verus! {

#[derive(Debug, Clone, Copy, PartialEq, Eq, Structural)]
pub enum Stream {
    Both,
    Stdout,
    Stderr,
}

pub struct Request {
    pub services: Vec<String>,
    pub tail: Option<usize>,
    pub follow: bool,
    pub stream: Stream,
}

/// Is this stream asked for?
pub open spec fn wanted(stream: Stream, stderr: bool) -> bool {
    if stderr {
        stream != Stream::Stdout
    } else {
        stream != Stream::Stderr
    }
}

/// Is this stream asked for?
pub fn wants(stream: Stream, stderr: bool) -> (r: bool)
    ensures
        r == wanted(stream, stderr),
{
    match stream {
        Stream::Both => true,
        Stream::Stdout => !stderr,
        Stream::Stderr => stderr,
    }
}

/// The lines of a log that are replayed.
pub open spec fn replayed(log: Seq<u8>, tail: Option<usize>) -> Seq<Seq<u8>> {
    match tail {
        Some(n) => lines::last_lines(lines::all_lines(log), n as int),
        None => lines::all_lines(log),
    }
}

/// The lines of a log that are replayed.
pub fn replay(log: &[u8], tail: Option<usize>) -> (out: Vec<Vec<u8>>)
    ensures
        lines::views(out@) == replayed(log@, tail),
{
    let list = lines::split_all(log);
    match tail {
        Some(n) => lines::keep_last(list, n),
        None => list,
    }
}

/// What is printed of one stream.
pub open spec fn stream_printed(
    request: Request,
    prefix: Seq<char>,
    stderr: bool,
    log: Seq<u8>,
) -> Seq<(bool, Seq<u8>)> {
    if wanted(request.stream, stderr) && log.len() > 0 {
        logstore::printed_lines(stderr, prefix, replayed(log, request.tail))
    } else {
        Seq::empty()
    }
}

fn push_stream(out: &mut Vec<Printed>, request: &Request, prefix: &str, stderr: bool, log: &[u8])
    ensures
        logstore::printed_view(final(out)@) == logstore::printed_view(old(out)@) + stream_printed(
            *request,
            prefix@,
            stderr,
            log@,
        ),
{
    let ghost before = logstore::printed_view(out@);
    if wants(request.stream, stderr) && log.len() > 0 {
        let list = replay(log, request.tail);
        logstore::print_all(out, stderr, prefix, &list);
    } else {
        assert(before + Seq::<(bool, Seq<u8>)>::empty() =~= before);
    }
}

/// Replay the logs of one service: the lines to print, and whether there was
/// anything in the logs asked for.
pub fn replay_service(request: &Request, prefix: &str, stdout: &[u8], stderr: &[u8]) -> (r: (
    Vec<Printed>,
    bool,
))
    ensures
        logstore::printed_view(r.0@) == stream_printed(*request, prefix@, false, stdout@)
            + stream_printed(*request, prefix@, true, stderr@),
        r.1 == ((wanted(request.stream, false) && stdout@.len() > 0) || (wanted(
            request.stream,
            true,
        ) && stderr@.len() > 0)),
{
    let mut out: Vec<Printed> = Vec::new();
    assert(logstore::printed_view(out@) =~= Seq::<(bool, Seq<u8>)>::empty());
    push_stream(&mut out, request, prefix, false, stdout);
    assert(logstore::printed_view(out@) =~= stream_printed(*request, prefix@, false, stdout@));
    push_stream(&mut out, request, prefix, true, stderr);
    let any = (wants(request.stream, false) && stdout.len() > 0) || (wants(request.stream, true)
        && stderr.len() > 0);
    (out, any)
}

// -------------------------------------------------------------------- follow
/// What reading a log came to.
pub enum LogRead {
    Missing,
    Unreadable(String),
    Bytes(Vec<u8>),
}

/// The bytes of a log; a missing one is empty.
pub open spec fn log_bytes(read: LogRead) -> Seq<u8> {
    match read {
        LogRead::Bytes(bytes) => bytes@,
        _ => Seq::empty(),
    }
}

/// Determine a follower's initial offset from one file snapshot.
///
/// Missing logs are equivalent to empty logs; other I/O failures stay visible
/// to the caller rather than silently turning a broken log path into no output.
pub fn follow_start_offset(path: &FsPath, read: &LogRead, tail: Option<usize>) -> (r: Result<
    u64,
    String,
>)
    ensures
        match (tail, *read) {
            (None, _) => r == Ok::<u64, String>(0),
            (Some(_), LogRead::Unreadable(reason)) => r matches Err(message) && message@
                == "cannot read "@ + paths::shown(path@) + ": "@ + reason@,
            (Some(n), _) => r matches Ok(offset) && offset <= log_bytes(*read).len()
                && lines::line_start(log_bytes(*read), offset as int) && lines::all_lines(
                log_bytes(*read).skip(offset as int),
            ) == replayed(log_bytes(*read), tail) && (n == 0 ==> offset == log_bytes(
                *read,
            ).len()),
        },
{
    let n = match tail {
        None => return Ok(0),
        Some(n) => n,
    };
    match read {
        LogRead::Missing => {
            let none: Vec<u8> = Vec::new();
            assert(none@ =~= log_bytes(*read));
            Ok(tail_start_offset(none.as_slice(), n) as u64)
        },
        LogRead::Unreadable(reason) => {
            let mut out = "cannot read ".to_string();
            out.append(path.display().as_str());
            out.append(": ");
            out.append(reason.as_str());
            Err(out)
        },
        LogRead::Bytes(bytes) => Ok(tail_start_offset(bytes.as_slice(), n) as u64),
    }
}

/// The relay of one service that is followed: of the streams asked for.
pub fn follow_relay(request: &Request, prefix: String) -> (out: LogRelay)
    ensures
        out.prefix == prefix,
        out.enabled_out == wanted(request.stream, false),
        out.enabled_err == wanted(request.stream, true),
        out.out_lines.buf@ == Seq::<u8>::empty(),
        out.err_lines.buf@ == Seq::<u8>::empty(),
{
    let mut relay = LogRelay::new(prefix);
    relay.enable(wants(request.stream, false), wants(request.stream, true));
    relay
}

/// Is there nothing to replay? `printed` says of each service whether it had
/// output.
pub fn nothing_yet(printed: &Vec<bool>) -> (r: bool)
    ensures
        r == !printed@.contains(true),
{
    for i in 0..printed.len()
        invariant
            forall|k: int| 0 <= k < i ==> !printed@[k],
    {
        if printed[i] {
            assert(printed@[i as int]);
            return false;
        }
    }
    true
}

/// What following does after it has forwarded what is new.
#[derive(Debug, Clone, Copy, PartialEq, Eq, Structural)]
pub enum FollowStep {
    /// Look again after so many milliseconds.
    Sleep(u64),
    /// Print partial lines and leave.
    Stop,
    /// Forward once more, print partial lines and leave.
    LastPump,
}

/// Stop following once nothing is running any more: an agent should not have to
/// time out a `logs -f` call. `live` says of each service whether its runner is
/// alive.
pub fn follow(interrupted: bool, live: &Vec<bool>) -> (r: FollowStep)
    ensures
        r == if interrupted {
            FollowStep::Stop
        } else if live@.contains(true) {
            FollowStep::Sleep(50)
        } else {
            FollowStep::LastPump
        },
{
    if interrupted {
        return FollowStep::Stop;
    }
    for i in 0..live.len()
        invariant
            !interrupted,
            forall|k: int| 0 <= k < i ==> !live@[k],
    {
        if live[i] {
            assert(live@[i as int]);
            return FollowStep::Sleep(50);
        }
    }
    FollowStep::LastPump
}

// ---------------------------------------------------------------------- laws
/// A tail window never shows more lines than asked for, and shows the end of the
/// log.
pub proof fn law_tail_shows_the_last_lines(log: Seq<u8>, n: usize)
    ensures
        ({
            let all = lines::all_lines(log);
            let shown = replayed(log, Some(n));
            &&& shown.len() <= n
            &&& shown.len() == all.len() || shown.len() == n
            &&& shown == all.skip(all.len() - shown.len())
        }),
{
    let all = lines::all_lines(log);
    let shown = replayed(log, Some(n));
    assert(shown =~= all.skip(all.len() - shown.len()));
}

/// Without a tail every line of a log is replayed, in order: as many as the log
/// holds, and written out again they are the log.
pub proof fn law_logs_are_replayed_whole(log: Seq<u8>)
    ensures
        replayed(log, None).len() == lines::newlines(log) + if log.len() == 0 || log[log.len() - 1]
            == 10 {
            0nat
        } else {
            1
        },
        !log.contains(13) ==> lines::written_out(replayed(log, None)) == if log.len() == 0
            || log[log.len() - 1] == 10 {
            log
        } else {
            log.push(10)
        },
{
    lines::law_lines_are_the_whole_stream(log);
}

/// What is replayed of a log is its first line, without the carriage return at its
/// end, and then what is replayed of the rest.
pub proof fn law_replay_goes_line_by_line(line: Seq<u8>, rest: Seq<u8>)
    requires
        !line.contains(10),
    ensures
        replayed(line.push(10) + rest, None) == seq![
            if line.len() > 0 && line[line.len() - 1] == 13 {
                line.take(line.len() - 1)
            } else {
                line
            },
        ] + replayed(rest, None),
        line.len() > 0 ==> replayed(line, None) == seq![
            if line[line.len() - 1] == 13 {
                line.take(line.len() - 1)
            } else {
                line
            },
        ],
        replayed(Seq::empty(), None) == Seq::<Seq<u8>>::empty(),
{
    lines::law_streams_are_cut_at_newlines(line, rest);
    lines::law_an_unended_line_counts(line);
    lines::law_an_unended_line_counts(Seq::empty());
}

/// With a tail the end of what is replayed without one is replayed: as many lines
/// as asked for, or all there are.
pub proof fn law_a_tail_is_the_end_of_the_replay(log: Seq<u8>, n: usize, i: int)
    ensures
        ({
            let whole = replayed(log, None);
            let shown = replayed(log, Some(n));
            &&& whole.len() <= n ==> shown == whole
            &&& whole.len() > n ==> shown.len() == n
            &&& whole.len() > n && 0 <= i < n ==> shown[i] == whole[whole.len() - n + i]
        }),
{
    lines::law_last_lines_are_the_end_of_the_list(lines::all_lines(log), n as int);
}

/// What is replayed is printed line by line to the stream that it came from, with
/// the prefix before it and a newline after it; of a stream that was not asked for
/// nothing is.
pub proof fn law_replays_keep_their_stream(
    request: Request,
    prefix: Seq<char>,
    stderr: bool,
    log: Seq<u8>,
    i: int,
)
    ensures
        ({
            let shown = replayed(log, request.tail);
            let out = stream_printed(request, prefix, stderr, log);
            let asked = request.stream == Stream::Both || (stderr && request.stream
                == Stream::Stderr) || (!stderr && request.stream == Stream::Stdout);
            &&& !asked || log.len() == 0 ==> out.len() == 0
            &&& asked && log.len() > 0 ==> out.len() == shown.len()
            &&& asked && log.len() > 0 && 0 <= i < shown.len() ==> out[i] == (
                stderr,
                vstd::utf8::encode_utf8(prefix) + shown[i] + seq![10u8],
            )
            &&& wanted(request.stream, stderr) <==> asked
        }),
{
}

} // verus!

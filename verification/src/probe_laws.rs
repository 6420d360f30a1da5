//! What holds of what a probe sends and of how it judges what came back.

use vstd::prelude::*;
use vstd::string::*;
use vstd::utf8::*;

use crate::paths;
use crate::probe;
use crate::probe::{ConnectFailure, IoKind, ReadEvent};
use crate::scan;
use crate::text;
use crate::text_laws;

verus! {

// ------------------------------------------------------------------- requests
/// The request line asks for the configured path as it stands where it begins with
/// a slash, and else for the path behind a slash.
pub proof fn law_requests_ask_for_the_configured_path(
    host: Seq<char>,
    port: u16,
    path: Seq<char>,
)
    ensures
        ({
            let request = probe::request_text(host, port, path);
            let as_it_stands = "GET "@ + path + " HTTP/1.1\r\n"@;
            let behind_a_slash = "GET /"@ + path + " HTTP/1.1\r\n"@;
            if path.len() > 0 && path[0] == '/' {
                request.take(as_it_stands.len() as int) == as_it_stands
            } else {
                request.take(behind_a_slash.len() as int) == behind_a_slash
            }
        }),
{
    let request = probe::request_text(host, port, path);
    reveal_strlit("GET ");
    reveal_strlit("GET /");
    reveal_strlit("/");
    reveal_strlit(" HTTP/1.1\r\n");
    reveal_strlit(" HTTP/1.1\r\nHost: ");
    if path.len() > 0 && path[0] == '/' {
        let line = "GET "@ + path + " HTTP/1.1\r\n"@;
        assert(request.take(line.len() as int) =~= line);
    } else {
        let line = "GET /"@ + path + " HTTP/1.1\r\n"@;
        assert(request.take(line.len() as int) =~= line);
    }
}

/// What follows the request line does not depend on the path: it names the host
/// and the port that are probed and closes the connection after the response.
pub proof fn law_requests_name_the_probed_host(
    host: Seq<char>,
    port: u16,
    path: Seq<char>,
)
    ensures
        ({
            let request = probe::request_text(host, port, path);
            let slash: int = if path.len() > 0 && path[0] == '/' {
                0
            } else {
                1
            };
            request.skip("GET "@.len() + slash + path.len() + " HTTP/1.1\r\n"@.len()) == "Host: "@
                + host + ":"@ + text::decimal(port as nat) + "\r\nUser-Agent: agproc/0.1.0"@
                + "\r\nAccept: */*\r\nConnection: close\r\n\r\n"@
        }),
{
    let request = probe::request_text(host, port, path);
    reveal_strlit("GET ");
    reveal_strlit("/");
    reveal_strlit(" HTTP/1.1\r\n");
    reveal_strlit("Host: ");
    reveal_strlit(" HTTP/1.1\r\nHost: ");
    reveal_strlit("\r\nUser-Agent: agproc/");
    reveal_strlit("0.1.0");
    reveal_strlit("\r\nUser-Agent: agproc/0.1.0");
    let slash: int = if path.len() > 0 && path[0] == '/' {
        0
    } else {
        1
    };
    let rest = "Host: "@ + host + ":"@ + text::decimal(port as nat)
        + "\r\nUser-Agent: agproc/0.1.0"@ + "\r\nAccept: */*\r\nConnection: close\r\n\r\n"@;
    assert(paths::VERSION@ == "0.1.0"@);
    assert(request.skip("GET "@.len() + slash + path.len() + " HTTP/1.1\r\n"@.len()) =~= rest);
}

// ------------------------------------------------------------------ responses
/// The first line decides: it ends at the first CR LF, whatever follows, and where
/// there is none at the first LF. Before a line has ended there is no status.
pub proof fn law_the_first_line_has_the_status(line: Seq<u8>, rest: Seq<u8>)
    requires
        forall|i: int| !#[trigger] probe::crlf_at(line, i),
    ensures
        probe::status(line + seq![13u8, 10u8] + rest) == probe::line_status(line),
        !line.contains(10) ==> probe::status(line) is None,
        !line.contains(10) && (line.len() == 0 || line[line.len() - 1] != 13) && (forall|i: int|
            !#[trigger] probe::crlf_at(rest, i)) ==> probe::status(line + seq![10u8] + rest)
            == probe::line_status(line),
{
    let n = line.len() as int;
    let s = line + seq![13u8, 10u8] + rest;
    assert(probe::first_crlf(s, n)) by {
        assert(probe::crlf_at(s, n));
        assert forall|i: int| 0 <= i < n implies !probe::crlf_at(s, i) by {
            assert(!probe::crlf_at(line, i));
        }
    }
    let at = choose|at: int| probe::first_crlf(s, at);
    assert(at == n) by {
        assert(probe::first_crlf(s, at));
        if at < n {
            assert(!probe::crlf_at(s, at));
        }
        if n < at {
            assert(!probe::crlf_at(s, n));
        }
    }
    assert(probe::line_end(s) == Some(n));
    assert(s.take(n) =~= line);
    if !line.contains(10) && (line.len() == 0 || line[n - 1] != 13) && (forall|i: int|
        !#[trigger] probe::crlf_at(rest, i)) {
        let t = line + seq![10u8] + rest;
        assert forall|i: int| !probe::crlf_at(t, i) by {
            if 0 <= i && i + 1 < n {
                assert(!probe::crlf_at(line, i));
            } else if i > n {
                assert(!probe::crlf_at(rest, i - n - 1));
            }
        }
        assert(t[n] == 10);
        assert(t.contains(10));
        t.index_of_first_ensures(10);
        let k = t.index_of_first(10)->Some_0;
        assert(k == n) by {
            if k < n {
                assert(line.contains(line[k]));
            }
        }
        assert(t.take(n) =~= line);
    }
}

/// The status is the number behind the word that begins with the protocol's name;
/// what follows it is not looked at.
pub proof fn law_the_status_is_the_second_word(
    version: Seq<char>,
    word: Seq<char>,
    reason: Seq<char>,
)
    requires
        forall|i: int| 0 <= i < version.len() ==> !text::white(#[trigger] version[i]),
        forall|i: int| 0 <= i < word.len() ==> !text::white(#[trigger] word[i]),
        word.len() > 0,
    ensures
        probe::line_status(encode_utf8("HTTP/"@ + version + " "@ + word + " "@ + reason))
            == scan::unsigned(word, 10, 65535),
        probe::line_status(encode_utf8("HTTP/"@ + version + " "@ + word)) == scan::unsigned(
            word,
            10,
            65535,
        ),
        probe::line_status(encode_utf8("HTTP/"@ + version)) is None,
{
    reveal_strlit("HTTP/");
    reveal_strlit(" ");
    broadcast use encode_utf8_valid_utf8, encode_utf8_decode_utf8;

    let first = "HTTP/"@ + version;
    assert forall|i: int| 0 <= i < first.len() implies !text::white(#[trigger] first[i]) by {
        if i >= 5 {
            assert(first[i] == version[i - 5]);
        }
    }
    text_laws::law_words_are_parted_by_white_space(word, ' ', reason);
    text_laws::law_words_are_parted_by_white_space(first, ' ', word.push(' ') + reason);
    text_laws::law_words_are_parted_by_white_space(first, ' ', word);
    let long = "HTTP/"@ + version + " "@ + word + " "@ + reason;
    let short = "HTTP/"@ + version + " "@ + word;
    assert(long =~= first.push(' ') + (word.push(' ') + reason));
    assert(short =~= first.push(' ') + word);
    assert(scan::words(long) == seq![first] + (seq![word] + scan::words(reason)));
    assert(scan::words(long)[0] == first && scan::words(long)[1] == word);
    assert(scan::words(short)[0] == first && scan::words(short)[1] == word);
    text_laws::law_texts_begin_with_their_prefixes("HTTP/"@, version, first);
}

/// A line whose first word does not begin with the protocol's name has no status.
pub proof fn law_other_lines_have_no_status(word: Seq<char>, rest: Seq<char>)
    requires
        forall|i: int| 0 <= i < word.len() ==> !text::white(#[trigger] word[i]),
        word.len() < 5 || word.take(5) != "HTTP/"@,
    ensures
        probe::line_status(encode_utf8(word + " "@ + rest)) is None || word.len() == 0,
{
    reveal_strlit("HTTP/");
    reveal_strlit(" ");
    broadcast use encode_utf8_valid_utf8, encode_utf8_decode_utf8;

    text_laws::law_words_are_parted_by_white_space(word, ' ', rest);
    let line = word + " "@ + rest;
    assert(line =~= word.push(' ') + rest);
    if word.len() > 0 {
        assert(scan::words(line)[0] == word);
        text_laws::law_texts_begin_with_their_prefixes("HTTP/"@, rest, word);
        if scan::starts(word, "HTTP/"@) {
            assert(word.take(5) =~= "HTTP/"@);
        }
    }
}

/// With a status of 200 up to 399 an attempt passes and with any other it fails by
/// that status, however much time is left. Without one it goes on until more than
/// 8192 bytes were read or the time is up.
pub proof fn law_the_status_decides_the_attempt(
    buf: Seq<u8>,
    code: int,
    out_of_time: bool,
    waited: Seq<char>,
)
    requires
        code >= 0,
    ensures
        probe::status(buf) == Some(code) && 200 <= code <= 399 ==> probe::response_result(
            buf,
            out_of_time,
            waited,
        ) == Some(Ok::<(), Seq<char>>(())),
        probe::status(buf) == Some(code) && !(200 <= code <= 399) ==> probe::response_result(
            buf,
            out_of_time,
            waited,
        ) == Some(Err::<(), Seq<char>>("HTTP "@ + text::decimal(code as nat))),
        probe::status(buf) is None && buf.len() > 8192 ==> probe::response_result(
            buf,
            out_of_time,
            waited,
        ) == Some(Err::<(), Seq<char>>("malformed HTTP response"@)),
        probe::status(buf) is None && buf.len() <= 8192 && out_of_time ==> probe::response_result(
            buf,
            out_of_time,
            waited,
        ) == Some(Err::<(), Seq<char>>("timed out after "@ + waited)),
        probe::status(buf) is None && buf.len() <= 8192 && !out_of_time
            ==> probe::response_result(buf, out_of_time, waited) is None,
{
}

/// What a read brought is added at the end; an interrupted read is tried again,
/// and any other failure, or the end of the connection, ends the attempt.
pub proof fn law_reads_add_to_the_response(buf: Seq<u8>, event: ReadEvent, waited: Seq<char>)
    ensures
        match event {
            ReadEvent::Data(more) => probe::read_result(buf, event, waited) matches Ok(now)
                && now.len() == buf.len() + more@.len() && now.take(buf.len() as int) == buf
                && now.skip(buf.len() as int) == more@,
            ReadEvent::Closed => probe::read_result(buf, event, waited) == Err::<
                Seq<u8>,
                Seq<char>,
            >("connection closed before the status line"@),
            ReadEvent::Failed(kind, message) => if kind == IoKind::Interrupted {
                probe::read_result(buf, event, waited) == Ok::<Seq<u8>, Seq<char>>(buf)
            } else {
                probe::read_result(buf, event, waited) == Err::<Seq<u8>, Seq<char>>(
                    probe::io_text(kind, message@, waited),
                )
            },
        },
{
    if let ReadEvent::Data(more) = event {
        let now = buf + more@;
        assert(now.take(buf.len() as int) =~= buf);
        assert(now.skip(buf.len() as int) =~= more@);
    }
}

/// The result of an attempt says whether it passed and, if not, why.
pub proof fn law_results_keep_their_reason(r: Result<(), String>)
    ensures
        r is Ok <==> probe::plain(r) is Ok,
        r matches Err(reason) ==> probe::plain(r) == Err::<(), Seq<char>>(reason@),
{
}

// ------------------------------------------------------------------- failures
/// A refused connection, a timeout and a lack of permission are called so; of any
/// other failure the system's own words are told.
pub proof fn law_failures_are_called_by_their_kind(
    kind: IoKind,
    message: Seq<char>,
    waited: Seq<char>,
)
    ensures
        kind == IoKind::ConnectionRefused ==> probe::io_text(kind, message, waited)
            == "connection refused"@,
        kind == IoKind::TimedOut || kind == IoKind::WouldBlock ==> probe::io_text(
            kind,
            message,
            waited,
        ) == "timed out after "@ + waited,
        kind == IoKind::PermissionDenied ==> probe::io_text(kind, message, waited)
            == "permission denied"@,
        kind == IoKind::Interrupted || kind == IoKind::Other ==> probe::io_text(
            kind,
            message,
            waited,
        ) == message,
{
}

/// A host without an address is named with its port, and a connection that failed
/// is told by its failure.
pub proof fn law_failed_connections_are_told(
    host: Seq<char>,
    port: u16,
    waited: Seq<char>,
    reason: String,
    kind: IoKind,
)
    ensures
        probe::connect_text(host, port, ConnectFailure::Unresolved(reason), waited)
            == "cannot resolve "@ + (host + ":"@ + text::decimal(port as nat)) + ": "@ + reason@,
        probe::connect_text(host, port, ConnectFailure::Refused(None), waited)
            == "cannot resolve "@ + (host + ":"@ + text::decimal(port as nat)),
        probe::connect_text(host, port, ConnectFailure::Refused(Some((kind, reason))), waited)
            == probe::io_text(kind, reason@, waited),
{
}

/// A wait of less than a second is told in milliseconds. A longer one is told in
/// seconds and the nearest tenth.
pub proof fn law_waits_are_told_to_the_nearest_tenth(seconds: nat, tenths: nat, ms: nat, off: int)
    requires
        tenths < 10,
        ms < 1000,
        -50 <= off < 50,
        1000 * seconds + 100 * tenths + off >= 1000,
    ensures
        probe::wait_text(ms as int) == text::decimal(ms) + "ms"@,
        probe::wait_text(1000 * seconds + 100 * tenths + off) == text::decimal(seconds) + "."@
            + text::decimal(tenths) + "s"@,
{
    let all = 1000 * seconds + 100 * tenths + off;
    assert((all + 50) / 1000 == seconds);
    assert((all + 50) % 1000 == 100 * tenths + off + 50);
    assert((100 * tenths + off + 50) / 100 == tenths);
}

} // verus!

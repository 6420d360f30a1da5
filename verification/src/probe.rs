//! Probes: a minimal HTTP/1.1 GET and a TCP connect.
//!
//! Only the status line of the HTTP response is needed, so this deliberately
//! avoids pulling in an HTTP client (and TLS): agproc probes local dev
//! endpoints, which are plain HTTP by design. The caller owns the socket; this
//! module says what to send and judges what came back.

use vstd::prelude::*;
use vstd::string::*;
use vstd::utf8::*;

use crate::bytes;
use crate::config::ProbeTarget;
use crate::paths;
use crate::scan;
use crate::text;

verus! {

/// The kinds of I/O failure that a probe names.
#[derive(Debug, Clone, Copy, PartialEq, Eq, Structural)]
pub enum IoKind {
    ConnectionRefused,
    TimedOut,
    WouldBlock,
    PermissionDenied,
    Interrupted,
    Other,
}

/// The digits of a wait to a tenth of a second.
pub open spec fn wait_text(ms: int) -> Seq<char> {
    if ms < 1000 {
        text::decimal(ms as nat) + "ms"@
    } else {
        text::decimal(((ms + 50) / 1000) as nat) + "."@ + text::decimal(
            (((ms + 50) % 1000) / 100) as nat,
        ) + "s"@
    }
}

/// A wait, in milliseconds below a second and else to a tenth of a second. At
/// half a tenth the rounding is that of binary fractions, and a wait of a
/// million million seconds is past their precision: neither is taken.
pub fn format_secs(ms: u64) -> (out: String)
    requires
        ms < 1000 || ms % 100 != 50,
        ms < 1_000_000_000_000_000,
    ensures
        out@ == wait_text(ms as int),
{
    if ms < 1000 {
        let mut out = text::u64_text(ms);
        out.append("ms");
        out
    } else {
        let rounded = ms + 50;
        let mut out = text::u64_text(rounded / 1000);
        out.append(".");
        text::push_u64(&mut out, (rounded % 1000) / 100);
        out.append("s");
        out
    }
}

/// What an I/O failure is called. `waited` is the probe's timeout as text.
pub open spec fn io_text(kind: IoKind, message: Seq<char>, waited: Seq<char>) -> Seq<char> {
    match kind {
        IoKind::ConnectionRefused => "connection refused"@,
        IoKind::TimedOut => "timed out after "@ + waited,
        IoKind::WouldBlock => "timed out after "@ + waited,
        IoKind::PermissionDenied => "permission denied"@,
        _ => message,
    }
}

pub fn describe_io(kind: IoKind, message: &str, waited: &str) -> (out: String)
    ensures
        out@ == io_text(kind, message@, waited@),
{
    match kind {
        IoKind::ConnectionRefused => "connection refused".to_string(),
        // A SO_RCVTIMEO expiry surfaces as WouldBlock on Linux.
        IoKind::TimedOut | IoKind::WouldBlock => {
            let mut out = "timed out after ".to_string();
            out.append(waited);
            out
        },
        IoKind::PermissionDenied => "permission denied".to_string(),
        _ => message.to_string(),
    }
}

// ------------------------------------------------------------------- connect
/// `<host>:<port>`.
pub open spec fn endpoint(host: Seq<char>, port: u16) -> Seq<char> {
    host + ":"@ + text::decimal(port as nat)
}

/// Why no connection came about.
pub enum ConnectFailure {
    /// The host has no address, and why.
    Unresolved(String),
    /// None of the addresses answered; the last failure, when there was one.
    Refused(Option<(IoKind, String)>),
}

/// Why a connection could not be made, as text.
pub open spec fn connect_text(
    host: Seq<char>,
    port: u16,
    failure: ConnectFailure,
    waited: Seq<char>,
) -> Seq<char> {
    match failure {
        ConnectFailure::Unresolved(reason) => "cannot resolve "@ + endpoint(host, port) + ": "@
            + reason@,
        ConnectFailure::Refused(last) => match last {
            Some(err) => io_text(err.0, err.1@, waited),
            None => "cannot resolve "@ + endpoint(host, port),
        },
    }
}

pub fn connect_failed(host: &str, port: u16, failure: &ConnectFailure, waited: &str) -> (out:
    String)
    ensures
        out@ == connect_text(host@, port, *failure, waited@),
{
    match failure {
        ConnectFailure::Unresolved(reason) => {
            let mut out = "cannot resolve ".to_string();
            let mut at = host.to_string();
            at.append(":");
            text::push_u64(&mut at, port as u64);
            out.append(at.as_str());
            out.append(": ");
            out.append(reason.as_str());
            out
        },
        ConnectFailure::Refused(last) => match last {
            Some(err) => describe_io(err.0, err.1.as_str(), waited),
            None => {
                let mut out = "cannot resolve ".to_string();
                let mut at = host.to_string();
                at.append(":");
                text::push_u64(&mut at, port as u64);
                out.append(at.as_str());
                out
            },
        },
    }
}

// ---------------------------------------------------------------------- http
/// The path of a request: absolute.
pub open spec fn request_path(path: Seq<char>) -> Seq<char> {
    if path.len() > 0 && path[0] == '/' {
        path
    } else {
        "/"@ + path
    }
}

/// The request of an HTTP probe.
pub open spec fn request_text(host: Seq<char>, port: u16, path: Seq<char>) -> Seq<char> {
    "GET "@ + request_path(path) + " HTTP/1.1\r\nHost: "@ + host + ":"@ + text::decimal(
        port as nat,
    ) + "\r\nUser-Agent: agproc/"@ + paths::VERSION@
        + "\r\nAccept: */*\r\nConnection: close\r\n\r\n"@
}

pub fn http_request(host: &str, port: u16, path: &str) -> (out: String)
    ensures
        out@ == request_text(host@, port, path@),
{
    let chars = text::chars_of(path);
    let absolute = if chars.len() > 0 && chars[0] == '/' {
        path.to_string()
    } else {
        let mut rooted = "/".to_string();
        rooted.append(path);
        rooted
    };
    let mut out = "GET ".to_string();
    out.append(absolute.as_str());
    out.append(" HTTP/1.1\r\nHost: ");
    out.append(host);
    out.append(":");
    text::push_u64(&mut out, port as u64);
    out.append("\r\nUser-Agent: agproc/");
    out.append(paths::VERSION);
    out.append("\r\nAccept: */*\r\nConnection: close\r\n\r\n");
    out
}

/// Is `at` where the first CR LF stands?
pub open spec fn first_crlf(buf: Seq<u8>, at: int) -> bool {
    &&& crlf_at(buf, at)
    &&& forall|i: int| 0 <= i < at ==> !crlf_at(buf, i)
}

pub open spec fn crlf_at(buf: Seq<u8>, at: int) -> bool {
    0 <= at && at + 1 < buf.len() && buf[at] == 13 && buf[at + 1] == 10
}

/// Where the status line ends: at the first CR LF, else at the first LF.
pub open spec fn line_end(buf: Seq<u8>) -> Option<int> {
    if exists|at: int| crlf_at(buf, at) {
        Some(choose|at: int| first_crlf(buf, at))
    } else if buf.contains(10) {
        Some(buf.index_of_first(10)->Some_0)
    } else {
        None
    }
}

/// The status of a status line.
pub open spec fn line_status(line: Seq<u8>) -> Option<int> {
    if !valid_utf8(line) {
        None
    } else {
        let parts = scan::words(decode_utf8(line));
        if parts.len() < 2 || !scan::starts(parts[0], "HTTP/"@) {
            None
        } else {
            scan::unsigned(parts[1], 10, u16::MAX as int)
        }
    }
}

/// The status of what was read of a response so far.
pub open spec fn status(buf: Seq<u8>) -> Option<int> {
    match line_end(buf) {
        Some(end) => line_status(buf.take(end)),
        None => None,
    }
}

fn find_line_end(buf: &[u8]) -> (r: Option<usize>)
    ensures
        match r {
            Some(end) => line_end(buf@) == Some(end as int) && end < buf@.len(),
            None => line_end(buf@) is None,
        },
{
    let mut i: usize = 0;
    while buf.len() - i > 1
        invariant
            i <= buf@.len(),
            forall|k: int| 0 <= k < i ==> !crlf_at(buf@, k),
        decreases buf.len() - i,
    {
        if buf[i] == 13 && buf[i + 1] == 10 {
            proof {
                assert(first_crlf(buf@, i as int));
                let at = choose|at: int| first_crlf(buf@, at);
                assert(first_crlf(buf@, at));
                assert(at == i) by {
                    if at < i {
                        assert(!crlf_at(buf@, at));
                    }
                    if i < at {
                        assert(!crlf_at(buf@, i as int));
                    }
                }
            }
            return Some(i);
        }
        i = i + 1;
    }
    assert forall|k: int| !crlf_at(buf@, k) by {
        if 0 <= k < i {
        }
    }
    let mut j: usize = 0;
    while j < buf.len()
        invariant
            j <= buf@.len(),
            forall|k: int| !crlf_at(buf@, k),
            forall|k: int| 0 <= k < j ==> buf@[k] != 10,
        decreases buf.len() - j,
    {
        if buf[j] == 10 {
            proof {
                assert(buf@[j as int] == 10);
                assert(buf@.contains(10));
                buf@.index_of_first_ensures(10);
            }
            return Some(j);
        }
        j = j + 1;
    }
    None
}

fn copy_range(buf: &[u8], end: usize) -> (out: Vec<u8>)
    requires
        end <= buf@.len(),
    ensures
        out@ == buf@.take(end as int),
{
    let mut out: Vec<u8> = Vec::new();
    for i in 0..end
        invariant
            end <= buf@.len(),
            out@ == buf@.take(i as int),
    {
        out.push(buf[i]);
        assert(out@ =~= buf@.take(i + 1));
    }
    out
}

/// Extract the status code from the first line of an HTTP response.
pub fn parse_status(buf: &[u8]) -> (r: Option<u16>)
    ensures
        match r {
            Some(code) => status(buf@) == Some(code as int),
            None => status(buf@) is None,
        },
{
    let end = match find_line_end(buf) {
        Some(end) => end,
        None => return None,
    };
    let line = copy_range(buf, end);
    let decoded = match bytes::text_of_utf8(line.as_slice()) {
        Some(decoded) => decoded,
        None => return None,
    };
    let parts = scan::split_words(decoded.as_str());
    let ghost list = text::texts(parts@);
    if parts.len() < 2 {
        return None;
    }
    assert(list[0] == parts@[0]@ && list[1] == parts@[1]@);
    if !scan::starts_with(parts[0].as_str(), "HTTP/") {
        return None;
    }
    match scan::parse_unsigned(parts[1].as_str(), 10, u16::MAX as u64) {
        Some(code) => Some(code as u16),
        None => None,
    }
}

/// An attempt's result as plain values.
pub open spec fn plain(r: Result<(), String>) -> Result<(), Seq<char>> {
    match r {
        Ok(_) => Ok(()),
        Err(reason) => Err(reason@),
    }
}

/// What a status says of the service.
pub open spec fn status_result(code: int) -> Result<(), Seq<char>> {
    if 200 <= code < 400 {
        Ok(())
    } else {
        Err("HTTP "@ + text::decimal(code as nat))
    }
}

/// What is known of a response before more of it is read, when it is enough.
pub open spec fn response_result(
    buf: Seq<u8>,
    out_of_time: bool,
    waited: Seq<char>,
) -> Option<Result<(), Seq<char>>> {
    match status(buf) {
        Some(code) => Some(status_result(code)),
        None => if buf.len() > 8192 {
            Some(Err("malformed HTTP response"@))
        } else if out_of_time {
            Some(Err("timed out after "@ + waited))
        } else {
            None
        },
    }
}

/// What a read of the response came to.
pub enum ReadEvent {
    Data(Vec<u8>),
    Closed,
    Failed(IoKind, String),
}

/// What a read adds to the response, or why the attempt failed.
pub open spec fn read_result(buf: Seq<u8>, event: ReadEvent, waited: Seq<char>) -> Result<
    Seq<u8>,
    Seq<char>,
> {
    match event {
        ReadEvent::Data(bytes) => Ok(buf + bytes@),
        ReadEvent::Closed => Err("connection closed before the status line"@),
        ReadEvent::Failed(kind, message) => if kind == IoKind::Interrupted {
            Ok(buf)
        } else {
            Err(io_text(kind, message@, waited))
        },
    }
}

/// The response of one HTTP probe, as far as it was read.
pub struct HttpResponse {
    pub buf: Vec<u8>,
}

impl HttpResponse {
    pub fn new() -> (out: HttpResponse)
        ensures
            out.buf@ == Seq::<u8>::empty(),
    {
        HttpResponse { buf: Vec::new() }
    }

    /// Is the attempt decided before more is read? `out_of_time` says that no
    /// time is left for reading.
    pub fn judge(&self, out_of_time: bool, waited: &str) -> (r: Option<Result<(), String>>)
        ensures
            match r {
                Some(result) => response_result(self.buf@, out_of_time, waited@) == Some(
                    plain(result),
                ),
                None => response_result(self.buf@, out_of_time, waited@) is None,
            },
    {
        if let Some(code) = parse_status(self.buf.as_slice()) {
            return Some(
                if 200 <= code && code < 400 {
                    Ok(())
                } else {
                    let mut out = "HTTP ".to_string();
                    text::push_u64(&mut out, code as u64);
                    Err(out)
                },
            );
        }
        if self.buf.len() > 8192 {
            return Some(Err("malformed HTTP response".to_string()));
        }
        if out_of_time {
            let mut out = "timed out after ".to_string();
            out.append(waited);
            return Some(Err(out));
        }
        None
    }

    /// Take in what a read came to.
    pub fn take(&mut self, event: ReadEvent, waited: &str) -> (r: Result<(), String>)
        ensures
            match r {
                Ok(_) => read_result(old(self).buf@, event, waited@) == Ok::<Seq<u8>, Seq<char>>(
                    final(self).buf@,
                ),
                Err(reason) => read_result(old(self).buf@, event, waited@) == Err::<
                    Seq<u8>,
                    Seq<char>,
                >(reason@) && final(self).buf@ == old(self).buf@,
            },
    {
        match event {
            ReadEvent::Data(more) => {
                bytes::push_bytes(&mut self.buf, more.as_slice());
                Ok(())
            },
            ReadEvent::Closed => Err("connection closed before the status line".to_string()),
            ReadEvent::Failed(kind, message) => if kind == IoKind::Interrupted {
                Ok(())
            } else {
                Err(describe_io(kind, message.as_str(), waited))
            },
        }
    }
}

// ------------------------------------------------------------------- attempt
/// What one probe attempt does.
pub enum Attempt {
    /// Connect, send the request and judge the response.
    Http { host: String, port: u16, request: String },
    /// Connect; that alone is a pass.
    Tcp { host: String, port: u16 },
    /// Nothing to ask: ready.
    Ready,
}

/// Plan one probe attempt.
pub fn attempt(target: &ProbeTarget) -> (r: Attempt)
    ensures
        match *target {
            ProbeTarget::Http { host, port, path, .. } => r matches Attempt::Http {
                host: h,
                port: p,
                request,
            } && h == host && p == port && request@ == request_text(host@, port, path@),
            ProbeTarget::Tcp { host, port } => r == (Attempt::Tcp { host, port }),
            ProbeTarget::NoProbe => r == Attempt::Ready,
        },
{
    match target {
        ProbeTarget::Http { host, port, path, .. } => Attempt::Http {
            host: host.clone(),
            port: *port,
            request: http_request(host.as_str(), *port, path.as_str()),
        },
        ProbeTarget::Tcp { host, port } => Attempt::Tcp { host: host.clone(), port: *port },
        ProbeTarget::NoProbe => Attempt::Ready,
    }
}

// ---------------------------------------------------------------------- laws
/// An HTTP probe passes exactly on a status of 200 up to 399.
pub proof fn law_success_and_redirection_pass(buf: Seq<u8>, out_of_time: bool, waited: Seq<char>)
    ensures
        response_result(buf, out_of_time, waited) == Some(Ok::<(), Seq<char>>(())) <==> (status(
            buf,
        ) matches Some(code) && 200 <= code < 400),
{
}

} // verus!

use agproc::config::{HttpGet, Probe, ProbeTarget, Settings};
use agproc::port::{preflight, verify, Listener, Ownership};
use agproc::probe::{
    attempt, connect_failed, describe_io, format_secs, http_request, parse_status, Attempt,
    ConnectFailure, HttpResponse, IoKind, ReadEvent,
};
use agproc::procinfo::{
    listener_inodes_for_port, listeners_on_port, pid_alive, pid_comm, pid_pgrp, pid_start_ticks,
    pid_state, pids_for_inodes, proc_path, ProcEntry,
};

fn settings(port_check: bool) -> Settings {
    Settings {
        port_check,
        ..Settings::default()
    }
}

fn http_target(port: u16) -> ProbeTarget {
    ProbeTarget::Http {
        scheme: "http".to_string(),
        host: "127.0.0.1".to_string(),
        port,
        path: "/".to_string(),
    }
}

fn held_by(pid: u32) -> Vec<(u32, String)> {
    vec![(pid, "node".to_string())]
}

#[test]
fn finds_our_own_listener_as_ours() {
    let ownership = verify(
        &http_target(3000),
        &settings(true),
        77,
        None,
        &held_by(81),
        &vec![Some(77)],
    );
    assert_eq!(ownership, Ownership::Ours);
}

#[test]
fn detects_a_confirmed_foreign_listener() {
    let before =
        preflight(&http_target(3000), &settings(true), &held_by(81)).expect("preflight sees it");
    assert_eq!(before.pid, 81);

    // A child group that does not contain the listener's process.
    let ownership = verify(
        &http_target(3000),
        &settings(true),
        0x7fff_fffe,
        Some(&before),
        &held_by(81),
        &vec![Some(81)],
    );
    assert_eq!(ownership, Ownership::ConfirmedForeign(before));
}

#[test]
fn unexpected_owner_is_not_confirmed_foreign() {
    let ownership = verify(
        &http_target(3000),
        &settings(true),
        0x7fff_fffe,
        None,
        &held_by(81),
        &vec![None],
    );
    match ownership {
        Ownership::Unexpected(l) => assert_eq!(l.pid, 81),
        other => panic!("expected Unexpected, got {other:?}"),
    }
}

#[test]
fn free_port_is_unknown_and_checks_can_be_disabled() {
    assert_eq!(
        verify(
            &http_target(3000),
            &settings(true),
            1,
            None,
            &Vec::new(),
            &Vec::new()
        ),
        Ownership::Unknown
    );
    assert_eq!(
        preflight(&http_target(3000), &settings(false), &held_by(81)),
        None,
        "disabled checks must not snapshot"
    );
    assert_eq!(
        verify(
            &http_target(3000),
            &settings(false),
            0,
            None,
            &held_by(81),
            &vec![Some(81)]
        ),
        Ownership::Unknown
    );
}

#[test]
fn remote_targets_are_not_attributed() {
    let target = ProbeTarget::Http {
        scheme: "http".to_string(),
        host: "example.com".to_string(),
        port: 80,
        path: "/".to_string(),
    };
    assert_eq!(preflight(&target, &settings(true), &held_by(81)), None);
    assert_eq!(
        verify(
            &target,
            &settings(true),
            1,
            None,
            &held_by(81),
            &vec![Some(1)]
        ),
        Ownership::Unknown
    );
}

#[test]
fn no_probe_means_no_port_checks() {
    assert_eq!(
        preflight(&ProbeTarget::NoProbe, &settings(true), &held_by(81)),
        None
    );
    assert_eq!(
        verify(
            &ProbeTarget::NoProbe,
            &settings(true),
            1,
            None,
            &held_by(81),
            &vec![Some(1)]
        ),
        Ownership::Unknown
    );
}

#[test]
fn listeners_are_described() {
    let listener = |comm: &str| Listener {
        pid: 614089,
        comm: comm.to_string(),
    };
    assert_eq!(listener("node").describe(), "pid 614089 (node)");
    assert_eq!(listener("").describe(), "pid 614089 (unknown)");
}

// --------------------------------------------------------------------- probes
fn answer(chunks: &[&[u8]]) -> Result<(), String> {
    let mut response = HttpResponse::new();
    for chunk in chunks {
        if let Some(result) = response.judge(false, "2.0s") {
            return result;
        }
        response.take(ReadEvent::Data(chunk.to_vec()), "2.0s")?;
    }
    if let Some(result) = response.judge(false, "2.0s") {
        return result;
    }
    response.take(ReadEvent::Closed, "2.0s")
}

#[test]
fn http_2xx_and_3xx_pass() {
    assert_eq!(
        answer(&[b"HTTP/1.1 200 OK\r\nContent-Length: 2\r\n\r\nok"]),
        Ok(())
    );
    assert_eq!(
        answer(&[b"HTTP/1.1 302 Found\r\nLocation: /x\r\n\r\n"]),
        Ok(())
    );
    assert_eq!(answer(&[b"HTTP/1.1 399 X\r", b"\n"]), Ok(()));
}

#[test]
fn http_5xx_fails_with_status() {
    assert_eq!(
        answer(&[b"HTTP/1.1 503 Service Unavailable\r\n\r\n"]),
        Err("HTTP 503".to_string())
    );
    assert_eq!(answer(&[b"HTTP/1.1 199 X\n"]), Err("HTTP 199".to_string()));
    assert_eq!(answer(&[b"HTTP/1.1 400 X\n"]), Err("HTTP 400".to_string()));
}

#[test]
fn closed_port_reports_connection_refused() {
    let failure = ConnectFailure::Refused(Some((
        IoKind::ConnectionRefused,
        "Connection refused (os error 111)".to_string(),
    )));
    assert_eq!(
        connect_failed("127.0.0.1", 3000, &failure, "500ms"),
        "connection refused"
    );
    assert_eq!(
        connect_failed("nowhere", 1, &ConnectFailure::Refused(None), "500ms"),
        "cannot resolve nowhere:1"
    );
    assert_eq!(
        connect_failed(
            "nowhere",
            1,
            &ConnectFailure::Unresolved("no such host".to_string()),
            "500ms"
        ),
        "cannot resolve nowhere:1: no such host"
    );
}

#[test]
fn silent_listener_times_out() {
    let response = HttpResponse::new();
    assert_eq!(response.judge(false, "300ms"), None);
    let result = response.judge(true, "300ms").unwrap();
    assert!(
        result.unwrap_err().contains("timed out"),
        "unexpected reason"
    );
}

#[test]
fn broken_responses_are_named() {
    assert_eq!(
        answer(&[b"HTTP/1.1 200"]),
        Err("connection closed before the status line".to_string())
    );
    let mut response = HttpResponse::new();
    response
        .take(ReadEvent::Data(vec![b'x'; 8193]), "2.0s")
        .unwrap();
    assert_eq!(
        response.judge(false, "2.0s"),
        Some(Err("malformed HTTP response".to_string()))
    );
    let mut response = HttpResponse::new();
    assert_eq!(
        response.take(
            ReadEvent::Failed(IoKind::Interrupted, "again".to_string()),
            "2.0s"
        ),
        Ok(())
    );
    assert_eq!(
        response.take(
            ReadEvent::Failed(IoKind::WouldBlock, "again".to_string()),
            "2.0s"
        ),
        Err("timed out after 2.0s".to_string())
    );
}

#[test]
fn io_failures_are_named() {
    assert_eq!(describe_io(IoKind::TimedOut, "x", "2.0s"), "timed out after 2.0s");
    assert_eq!(describe_io(IoKind::PermissionDenied, "x", ""), "permission denied");
    assert_eq!(describe_io(IoKind::Other, "broken pipe", ""), "broken pipe");
}

#[test]
fn waits_are_shown_to_a_tenth_of_a_second() {
    assert_eq!(format_secs(0), "0ms");
    assert_eq!(format_secs(999), "999ms");
    assert_eq!(format_secs(1000), "1.0s");
    assert_eq!(format_secs(2000), "2.0s");
    assert_eq!(format_secs(1249), "1.2s");
    assert_eq!(format_secs(1251), "1.3s");
    assert_eq!(format_secs(1960), "2.0s");
    for ms in [1001, 1049, 1051, 9949, 59_999, 123_456] {
        let seconds = ms as f64 / 1000.0;
        assert_eq!(format_secs(ms), format!("{seconds:.1}s"));
    }
}

#[test]
fn parse_status_handles_partial_and_newline_only() {
    assert_eq!(parse_status(b"HTTP/1.1 200"), None);
    assert_eq!(parse_status(b"HTTP/1.1 200 OK\r\n"), Some(200));
    assert_eq!(parse_status(b"HTTP/1.0 404 Not Found\n"), Some(404));
    assert_eq!(parse_status(b"garbage"), None);
}

#[test]
fn status_lines_are_read_with_care() {
    assert_eq!(parse_status(b"garbage 200\r\n"), None);
    assert_eq!(parse_status(b"HTTP/1.1\r\n"), None);
    assert_eq!(parse_status(b"HTTP/1.1 99999\r\n"), None);
    assert_eq!(parse_status(b"HTTP/1.1 \xff 200\r\n"), None);
    assert_eq!(parse_status(b"  HTTP/1.1\t200\n"), Some(200));
    // The first CR LF ends the line, wherever a lone LF stands.
    assert_eq!(parse_status(b"HTTP/1.1\n200\r\nx"), Some(200));
}

#[test]
fn attempts_follow_the_target() {
    let probe = Probe {
        http_get: Some(HttpGet {
            scheme: "http".to_string(),
            host: "localhost".to_string(),
            port: 8080,
            path: "ready?x=1".to_string(),
        }),
        ..Probe::default()
    };
    match attempt(&probe.target()) {
        Attempt::Http {
            host,
            port,
            request,
        } => {
            assert_eq!(host, "localhost");
            assert_eq!(port, 8080);
            assert_eq!(
                request,
                "GET /ready?x=1 HTTP/1.1\r\nHost: localhost:8080\r\nUser-Agent: agproc/0.1.0\r\nAccept: */*\r\nConnection: close\r\n\r\n"
            );
        }
        _ => panic!("expected an HTTP attempt"),
    }
    assert!(http_request("h", 1, "/").starts_with("GET / HTTP/1.1\r\n"));
    assert!(matches!(attempt(&ProbeTarget::NoProbe), Attempt::Ready));
    assert!(matches!(
        attempt(&ProbeTarget::Tcp {
            host: "h".to_string(),
            port: 1
        }),
        Attempt::Tcp { port: 1, .. }
    ));
}

// ---------------------------------------------------------------------- /proc
const STAT: &str = "4242 (odd ) name) S 1 4242 4242 0 -1 4194560 1 0 0 0 0 0 0 0 20 0 1 0 987654 1000 2 18446744073709551615\n";

#[test]
fn stat_files_are_read_after_the_last_parenthesis() {
    assert_eq!(pid_state(Some(STAT)), Some('S'));
    assert_eq!(pid_pgrp(Some(STAT)), Some(4242));
    assert_eq!(pid_start_ticks(Some(STAT)), Some(987654));
    assert!(pid_alive(4242, Some(STAT)));
    assert!(!pid_alive(0, Some(STAT)));
    assert!(!pid_alive(4242, None));
    assert!(!pid_alive(4242, Some("4242 (x) Z 1 1")));
    assert_eq!(pid_state(Some("no parenthesis")), None);
    assert_eq!(pid_state(Some("1 (x)")), None);
    assert_eq!(pid_start_ticks(Some("1 (x) S 1 2")), None);
    assert_eq!(pid_pgrp(Some("1 (x) S 1 -7")), Some(-7));
    assert_eq!(pid_comm(Some(" node \n")), "node");
    assert_eq!(pid_comm(None), "");
    assert_eq!(proc_path(12, "stat").display(), "/proc/12/stat");
}

#[test]
fn listeners_are_found_through_their_sockets() {
    let tcp = "  sl  local_address rem_address   st tx_queue rx_queue tr tm->when retrnsmt   uid  timeout inode\n   0: 0100007F:0BB8 00000000:0000 0A 00000000:00000000 00:00000000 00000000  1000        0 9002 1 0\n   1: 0100007F:0BB8 0100007F:1234 01 00000000:00000000 00:00000000 00000000  1000        0 5 1 0\n   2: 0100007F:0BB9 00000000:0000 0A 00000000:00000000 00:00000000 00000000  1000        0 6 1 0\n   3: short\n";
    let tcp6 = "heading\n   0: 00000000000000000000000000000000:0bb8 0:0 0A a b c d e 9001 1\n   1: 00000000000000000000000000000000:0BB8 0:0 0A a b c d e 9002 1\n";
    let inodes = listener_inodes_for_port(&vec![tcp.to_string(), tcp6.to_string()], 3000);
    assert_eq!(inodes, vec![9001, 9002]);
    assert!(listener_inodes_for_port(&vec![tcp.to_string()], 1).is_empty());

    let entry = |name: &str, links: &[&str]| ProcEntry {
        name: name.to_string(),
        links: links.iter().map(|s| s.to_string()).collect(),
    };
    let entries = vec![
        entry("70", &["/dev/null", "socket:[9002]", "socket:[9001]"]),
        entry("9", &["socket:[9001]"]),
        entry("self", &["socket:[9001]"]),
        entry("11", &["socket:[90010]"]),
    ];
    let pids = pids_for_inodes(&inodes, &entries);
    assert_eq!(pids, vec![9, 70]);
    assert!(pids_for_inodes(&Vec::new(), &entries).is_empty());
    assert_eq!(
        listeners_on_port(&pids, &vec![Some("sshd\n".to_string()), None]),
        vec![(9, "sshd".to_string()), (70, String::new())]
    );
}

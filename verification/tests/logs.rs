use agproc::cmd::logs::{
    follow, follow_relay, follow_start_offset, nothing_yet, replay, replay_service, tail_start_offset,
    wants, FollowStep, LogRead, Request, Stream,
};
use agproc::cmd::{prefix_width, Prefix};
use agproc::lines::LineBuffer;
use agproc::logstore::{
    emit, marker_line, LogFile, LogFollower, LogRelay, LogSink, PathNow, SinkOp,
};
use agproc::paths::FsPath;

fn owned(names: &[&str]) -> Vec<String> {
    names.iter().map(|name| name.to_string()).collect()
}

/// The files of one service, by name, and what was rotated away.
#[derive(Default)]
struct Disk {
    current: [Vec<u8>; 4],
    rotated: [Option<Vec<u8>>; 4],
}

fn slot(file: LogFile) -> usize {
    match file {
        LogFile::RunOut => 0,
        LogFile::RunErr => 1,
        LogFile::ConsoleOut => 2,
        LogFile::ConsoleErr => 3,
    }
}

impl Disk {
    fn apply(&mut self, ops: Vec<SinkOp>) {
        for op in ops {
            match op {
                SinkOp::Truncate(file) => self.current[slot(file)].clear(),
                SinkOp::Rotate(file) => {
                    let old = std::mem::take(&mut self.current[slot(file)]);
                    self.rotated[slot(file)] = Some(old);
                }
                SinkOp::Append(file, bytes) => self.current[slot(file)].extend(bytes),
            }
        }
    }

    fn read(&self, file: LogFile) -> String {
        String::from_utf8(self.current[slot(file)].clone()).unwrap()
    }
}

fn open(disk: &mut Disk, max_bytes: u64) -> LogSink {
    let (sink, ops) = LogSink::open(max_bytes);
    disk.apply(ops);
    sink
}

#[test]
fn line_buffer_splits_and_keeps_remainder() {
    let mut buffer = LineBuffer::new();
    let mut lines = buffer.push(b"one\ntwo\r\npart");
    assert_eq!(lines, vec![b"one".to_vec(), b"two".to_vec()]);
    lines.extend(buffer.flush());
    assert_eq!(lines.len(), 3);
    assert_eq!(lines[2], b"part".to_vec());
}

#[test]
fn lines_do_not_depend_on_chunks() {
    let stream = b"a\r\n\nbc\rd\n\xff\n\r\nrest\r";
    let mut whole = LineBuffer::new();
    let mut expected = whole.push(stream);
    expected.extend(whole.flush());
    assert_eq!(
        expected,
        vec![
            b"a".to_vec(),
            b"".to_vec(),
            b"bc\rd".to_vec(),
            b"\xff".to_vec(),
            b"".to_vec(),
            b"rest".to_vec()
        ]
    );
    for cut in 0..=stream.len() {
        let mut buffer = LineBuffer::new();
        let mut lines = buffer.push(&stream[..cut]);
        lines.extend(buffer.push(&stream[cut..]));
        lines.extend(buffer.flush());
        assert_eq!(lines, expected, "cut at {cut}");
        assert_eq!(buffer.flush(), None);
    }
}

#[test]
fn tail_start_offset_keeps_the_requested_logical_lines() {
    let cases: &[(&str, &[u8], usize, usize)] = &[
        ("empty", b"", 3, 0),
        ("zero", b"one\ntwo\n", 0, 8),
        ("fewer than requested", b"one\ntwo\n", 3, 0),
        ("exactly requested", b"one\ntwo\n", 2, 0),
        ("complete lines", b"one\ntwo\nthree\n", 2, 4),
        ("blank line", b"one\n\ntwo\n", 1, 5),
        ("crlf", b"one\r\ntwo\r\nthree\r\n", 2, 5),
        ("partial final line", b"one\ntwo", 1, 4),
    ];

    for &(name, bytes, tail, expected) in cases {
        assert_eq!(tail_start_offset(bytes, tail), expected, "{name}");
        // Following from there shows what a replay shows.
        assert_eq!(
            replay(&bytes[expected..], None),
            replay(bytes, Some(tail)),
            "{name}"
        );
    }
}

#[test]
fn follow_start_offset_treats_a_missing_log_as_empty() {
    let path = FsPath::from_text("/tmp/project/missing.log");
    assert_eq!(
        follow_start_offset(&path, &LogRead::Missing, Some(5)).unwrap(),
        0
    );
    assert_eq!(
        follow_start_offset(&path, &LogRead::Bytes(b"a\nb\n".to_vec()), Some(1)).unwrap(),
        2
    );
    assert_eq!(
        follow_start_offset(&path, &LogRead::Bytes(b"a\nb\n".to_vec()), None).unwrap(),
        0
    );
    assert_eq!(
        follow_start_offset(&path, &LogRead::Unreadable("denied".to_string()), Some(1)),
        Err("cannot read /tmp/project/missing.log: denied".to_string())
    );
}

#[test]
fn prefix_width_needs_at_least_two_services() {
    assert_eq!(prefix_width(&owned(&[])), None);
    assert_eq!(prefix_width(&owned(&["backend"])), None);
    assert_eq!(prefix_width(&owned(&["backend", "frontend"])), Some(8));
    // Order does not matter: it is the longest name that wins.
    assert_eq!(prefix_width(&owned(&["frontend", "backend"])), Some(8));
    assert_eq!(prefix_width(&owned(&["quiet", "other"])), Some(5));
}

#[test]
fn service_prefixes_are_padded_to_one_width() {
    assert_eq!(Prefix::service("backend", Some(8)).label, "backend  | ");
    assert_eq!(Prefix::service("frontend", Some(8)).label, "frontend | ");
    // Equal-length names get no extra padding.
    assert_eq!(Prefix::service("quiet", Some(5)).label, "quiet | ");
    // A single service is a pure pass-through.
    assert_eq!(Prefix::service("backend", None).label, "");
    assert_eq!(Prefix::plain().label, "");
}

#[test]
fn sink_keeps_markers_and_build_output_out_of_the_run_logs() {
    let mut disk = Disk::default();
    let mut sink = open(&mut disk, 0);

    // Build phase: markers and build output go to the console stream only.
    disk.apply(sink.marker("BUILDING"));
    disk.apply(sink.write_stdout(b"compiling\n"));
    disk.apply(sink.write_stderr(b"warning: unused import\n"));
    assert_eq!(
        disk.read(LogFile::ConsoleOut),
        "===== BUILDING =====\ncompiling\n"
    );
    assert_eq!(disk.read(LogFile::ConsoleErr), "warning: unused import\n");
    assert_eq!(disk.read(LogFile::RunOut), "");

    // Run phase: run output lands in both destinations until readiness
    // settles, then only in the run logs.
    disk.apply(sink.begin_run());
    disk.apply(sink.marker("RUNNING"));
    disk.apply(sink.write_stdout(b"listening\n"));
    disk.apply(sink.write_stderr(b"note\n"));
    assert_eq!(disk.read(LogFile::RunOut), "listening\n");
    assert_eq!(disk.read(LogFile::RunErr), "note\n");
    assert_eq!(
        disk.read(LogFile::ConsoleOut),
        "===== BUILDING =====\ncompiling\n===== RUNNING =====\nlistening\n"
    );

    sink.end_narrative();
    disk.apply(sink.marker("SERVICE EXITED (exit code 0)"));
    disk.apply(sink.write_stdout(b"later\n"));
    assert_eq!(disk.read(LogFile::RunOut), "listening\nlater\n");
    assert!(
        !disk.read(LogFile::ConsoleOut).contains("later"),
        "run output must stop being duplicated once readiness settled"
    );
}

#[test]
fn a_new_session_starts_from_empty_files() {
    let mut disk = Disk::default();
    {
        let mut sink = open(&mut disk, 0);
        disk.apply(sink.marker("BUILDING"));
        disk.apply(sink.begin_run());
        disk.apply(sink.write_stdout(b"previous run\n"));
    }
    let mut sink = open(&mut disk, 0);
    disk.apply(sink.begin_run());
    disk.apply(sink.write_stdout(b"current run\n"));

    assert_eq!(disk.read(LogFile::RunOut), "current run\n");
    assert_eq!(disk.read(LogFile::ConsoleOut), "current run\n");
}

#[test]
fn sink_rotates_when_the_cap_is_crossed() {
    let mut disk = Disk::default();
    let mut sink = open(&mut disk, 16);
    disk.apply(sink.begin_run());
    disk.apply(sink.write_stdout(b"0123456789\n"));
    disk.apply(sink.write_stdout(b"abcdefghij\n"));

    assert_eq!(
        disk.rotated[slot(LogFile::RunOut)],
        Some(b"0123456789\n".to_vec())
    );
    assert_eq!(disk.read(LogFile::RunOut), "abcdefghij\n");
    assert_eq!(disk.rotated[slot(LogFile::RunErr)], None);
}

#[test]
fn an_empty_file_takes_a_write_larger_than_the_cap() {
    let mut disk = Disk::default();
    let mut sink = open(&mut disk, 4);
    disk.apply(sink.begin_run());
    disk.apply(sink.write_stderr(b"0123456789"));
    assert_eq!(disk.rotated[slot(LogFile::RunErr)], None);
    disk.apply(sink.write_stderr(b"x"));
    assert_eq!(
        disk.rotated[slot(LogFile::RunErr)],
        Some(b"0123456789".to_vec())
    );
    assert_eq!(disk.read(LogFile::RunErr), "x");
}

/// Read what a follower plans to read of the file at its path.
fn read_new(follower: &mut LogFollower, inode: u64, content: &[u8]) -> Vec<u8> {
    let plan = follower.read_new(PathNow::Present {
        inode,
        len: content.len() as u64,
    });
    let bytes = match plan.read {
        Some((from, count)) => content[from as usize..(from + count) as usize].to_vec(),
        None => Vec::new(),
    };
    follower.advance(&plan, bytes.len() as u64);
    bytes
}

#[test]
fn follower_reads_only_new_bytes_and_survives_rotation() {
    let mut follower = LogFollower::new();
    follower.seek_to(0, Some(7), 6);
    assert_eq!(read_new(&mut follower, 7, b"first\n"), b"first\n");
    assert!(read_new(&mut follower, 7, b"first\n").is_empty());
    assert_eq!(read_new(&mut follower, 7, b"first\nsecond\n"), b"second\n");

    // Rotation: the path now points at a fresh, shorter file.
    assert_eq!(read_new(&mut follower, 8, b"fresh\n"), b"fresh\n");
    // Truncation in place.
    assert_eq!(read_new(&mut follower, 8, b"now\n"), b"now\n");
}

#[test]
fn follower_hands_over_bytes_of_an_unlinked_file() {
    let mut follower = LogFollower::new();
    follower.seek_to(0, Some(7), 6);
    assert_eq!(read_new(&mut follower, 7, b"first\n"), b"first\n");

    // More output is written and then the file is removed underneath us.
    let content = b"first\nlast words\n";
    let plan = follower.read_new(PathNow::Gone {
        open_len: Some(content.len() as u64),
    });
    let (from, count) = plan.read.unwrap();
    assert_eq!(
        &content[from as usize..(from + count) as usize],
        b"last words\n"
    );
    follower.advance(&plan, count);
    let plan = follower.read_new(PathNow::Gone { open_len: None });
    assert_eq!(plan.read, None);
    follower.advance(&plan, 0);
    // The next file at the path is read from its beginning.
    assert_eq!(read_new(&mut follower, 9, b"next\n"), b"next\n");
}

#[test]
fn a_seek_is_clamped_to_the_end() {
    let mut follower = LogFollower::new();
    follower.seek_to(100, Some(3), 4);
    assert!(read_new(&mut follower, 3, b"1234").is_empty());
    assert_eq!(read_new(&mut follower, 3, b"123456"), b"56");
    follower.seek_to(2, None, 0);
    assert_eq!(read_new(&mut follower, 4, b"ab"), b"ab");
}

#[test]
fn a_relay_keeps_streams_apart_and_labels_lines() {
    let mut relay = LogRelay::new("api | ".to_string());
    let printed = relay.pump(b"out\npar", b"err\r\n");
    let shown: Vec<(bool, &[u8])> = printed
        .iter()
        .map(|line| (line.to_stderr, line.bytes.as_slice()))
        .collect();
    assert_eq!(
        shown,
        vec![(false, &b"api | out\n"[..]), (true, &b"api | err\n"[..])]
    );
    let printed = relay.pump(b"tial\n", b"");
    assert_eq!(printed.len(), 1);
    assert_eq!(printed[0].bytes, b"api | partial\n");
    relay.pump(b"end", b"more");
    let printed = relay.flush();
    assert_eq!(printed.len(), 2);
    assert_eq!(printed[0].bytes, b"api | end\n");
    assert!(printed[1].to_stderr);
    assert!(relay.flush().is_empty());
}

fn request(stream: Stream, tail: Option<usize>) -> Request {
    Request {
        services: Vec::new(),
        tail,
        follow: false,
        stream,
    }
}

#[test]
fn replays_show_the_streams_asked_for() {
    let (printed, any) = replay_service(
        &request(Stream::Stderr, Some(1)),
        "",
        b"out\n",
        b"one\ntwo\n",
    );
    assert!(any);
    assert_eq!(printed.len(), 1);
    assert!(printed[0].to_stderr);
    assert_eq!(printed[0].bytes, b"two\n");
    let (printed, any) = replay_service(&request(Stream::Stdout, None), "", b"", b"err\n");
    assert!(!any);
    assert!(printed.is_empty());
    // A log with content counts, even when no line of it is shown.
    let (printed, any) = replay_service(&request(Stream::Both, Some(0)), "", b"x\n", b"");
    assert!(any);
    assert!(printed.is_empty());
    assert!(wants(Stream::Both, true) && wants(Stream::Both, false));
    assert!(wants(Stream::Stdout, false) && !wants(Stream::Stdout, true));

    let mut relay = follow_relay(&request(Stream::Stdout, None), String::new());
    let printed = relay.pump(b"a\n", b"b\n");
    assert_eq!(printed.len(), 1);
    assert_eq!(printed[0].bytes, b"a\n");
}

#[test]
fn following_ends_when_nothing_runs() {
    assert_eq!(follow(true, &vec![true]), FollowStep::Stop);
    assert_eq!(follow(false, &vec![false, true]), FollowStep::Sleep(50));
    assert_eq!(follow(false, &vec![false, false]), FollowStep::LastPump);
    assert_eq!(follow(false, &Vec::new()), FollowStep::LastPump);
}

#[test]
fn lines_have_one_shape() {
    assert_eq!(marker_line("A B"), "===== A B =====\n");
    assert_eq!(emit("p | ", b"x\xff"), b"p | x\xff\n");
}

#[test]
fn no_logs_yet_means_that_no_service_has_any() {
    assert!(nothing_yet(&Vec::new()));
    assert!(nothing_yet(&vec![false, false]));
    assert!(!nothing_yet(&vec![false, true, false]));
}

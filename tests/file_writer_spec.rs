use jon_listen::listener::tcp_server::line_command;
use jon_listen::listener::udp_server::{DatagramIngest, UDP_BUFFER_SIZE};
use jon_listen::settings::FormattingConfig;
use jon_listen::writer::file_writer::{
    ending_banner, frame_record, starting_banner, FileOp, FileSink, FileWriterCommand,
};

fn no_banners() -> FormattingConfig {
    FormattingConfig { startingmsg: false, endingmsg: false }
}

/// Plays plans against an in-memory file system: the live file and the
/// retired siblings in order of retirement.
fn run(sink: &FileSink, cmds: Vec<FileWriterCommand>) -> (Vec<u8>, Vec<(String, Vec<u8>)>) {
    let mut live: Vec<u8> = vec![];
    let mut retired: Vec<(String, Vec<u8>)> = vec![];
    for cmd in cmds {
        for op in sink.plan(cmd, "Mon, 1 Jan 2024 00:00:00 +0000") {
            match op {
                FileOp::Append(b) => live.extend_from_slice(&b),
                FileOp::Rename { to, .. } => retired.push((to, std::mem::take(&mut live))),
                FileOp::OpenTruncate(_) => live.clear(),
                FileOp::OpenAppend(_) => {}
            }
        }
    }
    (live, retired)
}

#[test]
fn write_appends_newline_when_missing() {
    assert_eq!(frame_record(b"Hello".to_vec()), b"Hello\n".to_vec());
    assert_eq!(frame_record(vec![]), b"\n".to_vec());
}

#[test]
fn write_does_not_double_newline() {
    assert_eq!(frame_record(b"Hello\n".to_vec()), b"Hello\n".to_vec());
    assert_eq!(frame_record(b"a\n\n".to_vec()), b"a\n\n".to_vec());
}

#[test]
fn banners_have_the_documented_shape() {
    assert_eq!(starting_banner("/var/log/app", "T0"), b"Starting /var/log/app at T0\n".to_vec());
    assert_eq!(ending_banner("/var/log/app.3", "T1"), b"Ending log as /var/log/app.3 at T1\n".to_vec());
}

#[test]
fn open_plan_appends_and_writes_the_banner_when_configured() {
    let sink = FileSink::new(
        "/d/log".to_string(),
        FormattingConfig { startingmsg: true, endingmsg: false },
    );
    assert_eq!(
        sink.open_plan("T"),
        vec![FileOp::OpenAppend("/d/log".to_string()), FileOp::Append(b"Starting /d/log at T\n".to_vec())]
    );
    let quiet = FileSink::new("/d/log".to_string(), no_banners());
    assert_eq!(quiet.open_plan("T"), vec![FileOp::OpenAppend("/d/log".to_string())]);
}

#[test]
fn rename_plan_ends_moves_reopens_and_starts() {
    let sink = FileSink::new(
        "/d/log".to_string(),
        FormattingConfig { startingmsg: true, endingmsg: true },
    );
    let ops = sink.plan(FileWriterCommand::Rename("/d/log.2".to_string()), "T");
    assert_eq!(
        ops,
        vec![
            FileOp::Append(b"Ending log as /d/log.2 at T\n".to_vec()),
            FileOp::Rename { from: "/d/log".to_string(), to: "/d/log.2".to_string() },
            FileOp::OpenTruncate("/d/log".to_string()),
            FileOp::Append(b"Starting /d/log at T\n".to_vec()),
        ]
    );
    let quiet = FileSink::new("/d/log".to_string(), no_banners());
    assert_eq!(
        quiet.plan(FileWriterCommand::Rename("/d/log.2".to_string()), "T"),
        vec![
            FileOp::Rename { from: "/d/log".to_string(), to: "/d/log.2".to_string() },
            FileOp::OpenTruncate("/d/log".to_string()),
        ]
    );
}

#[test]
fn debug_writes_are_framed_like_writes() {
    let sink = FileSink::new("/d/log".to_string(), no_banners());
    let ops = sink.plan(FileWriterCommand::WriteDebug("server-udp-0".to_string(), b"x".to_vec(), 3), "T");
    assert_eq!(ops, vec![FileOp::Append(b"x\n".to_vec())]);
}

#[test]
fn records_land_once_in_order_across_rotations() {
    let sink = FileSink::new("/d/log".to_string(), no_banners());
    let cmds = vec![
        FileWriterCommand::Write(b"a".to_vec()),
        FileWriterCommand::Write(b"b\n".to_vec()),
        FileWriterCommand::Rename("/d/log.0".to_string()),
        FileWriterCommand::Write(b"c".to_vec()),
    ];
    let (live, retired) = run(&sink, cmds);
    assert_eq!(retired, vec![("/d/log.0".to_string(), b"a\nb\n".to_vec())]);
    assert_eq!(live, b"c\n".to_vec());
}

#[test]
fn udp_happy_path_hundred_messages() {
    let sink = FileSink::new("/d/log".to_string(), no_banners());
    let mut ingest = DatagramIngest::new(0, false);
    let mut cmds = vec![];
    for i in 0..100 {
        let mut buf = vec![0u8; UDP_BUFFER_SIZE];
        let msg = format!("Message # {}", i);
        buf[..msg.len()].copy_from_slice(msg.as_bytes());
        cmds.push(ingest.on_datagram(&buf, msg.len()));
    }
    let (live, retired) = run(&sink, cmds);
    assert!(retired.is_empty());
    let expected: String = (0..100).map(|i| format!("Message # {}\n", i)).collect();
    assert_eq!(String::from_utf8(live).unwrap(), expected);
}

#[test]
fn tcp_framing_three_lines() {
    let sink = FileSink::new("/d/log".to_string(), no_banners());
    let stream = "line 1\nline 2\nline 3\n";
    let cmds: Vec<FileWriterCommand> =
        stream.lines().map(line_command).collect();
    let (live, _) = run(&sink, cmds);
    assert!(String::from_utf8(live).unwrap().ends_with("line 1\nline 2\nline 3\n"));
}

//! The file sink: how each command on the channel becomes operations on the
//! live file and its rotated siblings.
use vstd::prelude::*;
use vstd::string::*;
use vstd::utf8::encode_utf8;
use crate::settings::FormattingConfig;

verus! {

/// The one message type on the command channel.
#[derive(Debug, Clone, PartialEq, Eq)]
pub enum FileWriterCommand {
    /// Append a record.
    Write(Vec<u8>),
    /// Retire the live file under this path and start a fresh one.
    Rename(String),
    /// Append a record, with the producer's name and its own sequence number.
    WriteDebug(String, Vec<u8>, i32),
}

/// One operation on the file system, as the sink performs them in order.
#[derive(Debug, Clone, PartialEq, Eq)]
pub enum FileOp {
    /// Open the file in append mode, creating it if absent.
    OpenAppend(String),
    /// Append the bytes, in full, to the open file.
    Append(Vec<u8>),
    /// Move the file at `from` to `to`, replacing what is there.
    Rename { from: String, to: String },
    /// Open the file empty, creating it if absent.
    OpenTruncate(String),
}

/// The mathematical content of a `FileOp`.
pub enum FileOpView {
    OpenAppend(Seq<char>),
    Append(Seq<u8>),
    Rename(Seq<char>, Seq<char>),
    OpenTruncate(Seq<char>),
}

impl View for FileOp {
    type V = FileOpView;

    open spec fn view(&self) -> FileOpView {
        match self {
            FileOp::OpenAppend(p) => FileOpView::OpenAppend(p@),
            FileOp::Append(b) => FileOpView::Append(b@),
            FileOp::Rename { from, to } => FileOpView::Rename(from@, to@),
            FileOp::OpenTruncate(p) => FileOpView::OpenTruncate(p@),
        }
    }
}

/// The views of a list of operations.
pub open spec fn ops_view(ops: Seq<FileOp>) -> Seq<FileOpView> {
    ops.map_values(|o: FileOp| o@)
}

pub const NEWLINE: u8 = 10;

/// A record as it lands on disk: unchanged when it already ends in a newline,
/// otherwise with one appended.
pub open spec fn framed(b: Seq<u8>) -> Seq<u8> {
    if b.len() > 0 && b.last() == NEWLINE {
        b
    } else {
        b.push(NEWLINE)
    }
}

/// Frames a record for the file.
pub fn frame_record(b: Vec<u8>) -> (r: Vec<u8>)
    ensures
        r@ == framed(b@),
{
    let mut b = b;
    let n = b.len();
    if n > 0 && b[n - 1] == NEWLINE {
        b
    } else {
        b.push(NEWLINE);
        b
    }
}

/// The banner opening a fresh file.
pub open spec fn starting_text(path: Seq<char>, time: Seq<char>) -> Seq<char> {
    "Starting "@ + path + " at "@ + time + "\n"@
}

/// The last line of a file that is about to be retired.
pub open spec fn ending_text(target: Seq<char>, time: Seq<char>) -> Seq<char> {
    "Ending log as "@ + target + " at "@ + time + "\n"@
}

fn line_bytes(head: &str, subject: &str, time: &str) -> (r: Vec<u8>)
    ensures
        r@ == encode_utf8(head@ + subject@ + " at "@ + time@ + "\n"@),
{
    let mut s = String::from_str(head);
    s.append(subject);
    s.append(" at ");
    s.append(time);
    s.append("\n");
    s.as_str().as_bytes_vec()
}

/// The bytes of the starting banner for `path`, stamped with `time`.
pub fn starting_banner(path: &str, time: &str) -> (r: Vec<u8>)
    ensures
        r@ == encode_utf8(starting_text(path@, time@)),
{
    line_bytes("Starting ", path, time)
}

/// The bytes of the ending line naming `target`, stamped with `time`.
pub fn ending_banner(target: &str, time: &str) -> (r: Vec<u8>)
    ensures
        r@ == encode_utf8(ending_text(target@, time@)),
{
    line_bytes("Ending log as ", target, time)
}

/// The operations that open the live file at start-up.
pub open spec fn open_plan_spec(live: Seq<char>, fmt: FormattingConfig, time: Seq<char>) -> Seq<
    FileOpView,
> {
    let open = seq![FileOpView::OpenAppend(live)];
    if fmt.startingmsg {
        open.push(FileOpView::Append(encode_utf8(starting_text(live, time))))
    } else {
        open
    }
}

/// The operations that apply one command; `time` stamps any banner.
pub open spec fn command_plan_spec(
    live: Seq<char>,
    fmt: FormattingConfig,
    cmd: FileWriterCommand,
    time: Seq<char>,
) -> Seq<FileOpView> {
    match cmd {
        FileWriterCommand::Write(b) => seq![FileOpView::Append(framed(b@))],
        FileWriterCommand::WriteDebug(_, b, _) => seq![FileOpView::Append(framed(b@))],
        FileWriterCommand::Rename(target) => {
            let ending = if fmt.endingmsg {
                seq![FileOpView::Append(encode_utf8(ending_text(target@, time)))]
            } else {
                Seq::empty()
            };
            let starting = if fmt.startingmsg {
                seq![FileOpView::Append(encode_utf8(starting_text(live, time)))]
            } else {
                Seq::empty()
            };
            ending + seq![FileOpView::Rename(live, target@), FileOpView::OpenTruncate(live)]
                + starting
        },
    }
}

/// The single writer of the live file.
#[derive(Debug, Clone)]
pub struct FileSink {
    pub live_path: String,
    pub formatting: FormattingConfig,
}

impl FileSink {
    pub fn new(live_path: String, formatting: FormattingConfig) -> (r: FileSink)
        ensures
            r.live_path == live_path,
            r.formatting == formatting,
    {
        FileSink { live_path, formatting }
    }

    /// Start-up: open the live file for appending, then the starting banner if
    /// configured.
    pub fn open_plan(&self, time: &str) -> (r: Vec<FileOp>)
        ensures
            ops_view(r@) == open_plan_spec(self.live_path@, self.formatting, time@),
    {
        let mut ops: Vec<FileOp> = Vec::new();
        ops.push(FileOp::OpenAppend(self.live_path.clone()));
        if self.formatting.startingmsg {
            ops.push(FileOp::Append(starting_banner(self.live_path.as_str(), time)));
        }
        assert(ops_view(ops@) =~= open_plan_spec(self.live_path@, self.formatting, time@));
        ops
    }

    /// The operations for one dequeued command. A record is framed and
    /// appended. A rename writes the ending line if configured, moves the live
    /// file to the target, opens a fresh empty live file, and writes the
    /// starting banner if configured.
    pub fn plan(&self, cmd: FileWriterCommand, time: &str) -> (r: Vec<FileOp>)
        ensures
            ops_view(r@) == command_plan_spec(self.live_path@, self.formatting, cmd, time@),
    {
        let ghost c = cmd;
        let mut ops: Vec<FileOp> = Vec::new();
        match cmd {
            FileWriterCommand::Write(b) => {
                ops.push(FileOp::Append(frame_record(b)));
            },
            FileWriterCommand::WriteDebug(_, b, _) => {
                ops.push(FileOp::Append(frame_record(b)));
            },
            FileWriterCommand::Rename(target) => {
                if self.formatting.endingmsg {
                    ops.push(FileOp::Append(ending_banner(target.as_str(), time)));
                }
                ops.push(FileOp::Rename { from: self.live_path.clone(), to: target });
                ops.push(FileOp::OpenTruncate(self.live_path.clone()));
                if self.formatting.startingmsg {
                    ops.push(FileOp::Append(starting_banner(self.live_path.as_str(), time)));
                }
            },
        }
        assert(ops_view(ops@) =~= command_plan_spec(self.live_path@, self.formatting, c, time@));
        ops
    }
}

/// The bytes that a list of operations appends, in order.
pub open spec fn appended_bytes(ops: Seq<FileOpView>) -> Seq<u8>
    decreases ops.len(),
{
    if ops.len() == 0 {
        Seq::empty()
    } else {
        appended_bytes(ops.drop_last()) + match ops.last() {
            FileOpView::Append(b) => b,
            _ => Seq::empty(),
        }
    }
}

/// The records that a list of commands carries, each framed, in order.
pub open spec fn records_text(cmds: Seq<FileWriterCommand>) -> Seq<u8>
    decreases cmds.len(),
{
    if cmds.len() == 0 {
        Seq::empty()
    } else {
        records_text(cmds.drop_last()) + match cmds.last() {
            FileWriterCommand::Write(b) => framed(b@),
            FileWriterCommand::WriteDebug(_, b, _) => framed(b@),
            FileWriterCommand::Rename(_) => Seq::empty(),
        }
    }
}

/// The operations the sink performs for a list of commands, one plan after
/// another.
pub open spec fn plans_for(
    live: Seq<char>,
    fmt: FormattingConfig,
    cmds: Seq<FileWriterCommand>,
    time: Seq<char>,
) -> Seq<FileOpView>
    decreases cmds.len(),
{
    if cmds.len() == 0 {
        Seq::empty()
    } else {
        plans_for(live, fmt, cmds.drop_last(), time) + command_plan_spec(
            live,
            fmt,
            cmds.last(),
            time,
        )
    }
}

proof fn lemma_appended_bytes_concat(a: Seq<FileOpView>, b: Seq<FileOpView>)
    ensures
        appended_bytes(a + b) == appended_bytes(a) + appended_bytes(b),
    decreases b.len(),
{
    if b.len() == 0 {
        assert(a + b =~= a);
        assert(appended_bytes(a) + appended_bytes(b) =~= appended_bytes(a));
    } else {
        lemma_appended_bytes_concat(a, b.drop_last());
        assert((a + b).drop_last() =~= a + b.drop_last());
        assert((a + b).last() == b.last());
        assert(appended_bytes(a + b) =~= appended_bytes(a) + appended_bytes(b));
    }
}

/// A framed record is the record itself followed by at most one synthesized
/// newline, and it ends in a newline.
pub proof fn lemma_framed_record(b: Seq<u8>)
    ensures
        framed(b).len() == b.len() || framed(b).len() == b.len() + 1,
        framed(b).subrange(0, b.len() as int) == b,
        framed(b).last() == NEWLINE,
        framed(b).len() == b.len() + 1 <==> !(b.len() > 0 && b.last() == NEWLINE),
{
    assert(framed(b).subrange(0, b.len() as int) =~= b);
}

/// Without banners, everything the sink appends over a run of commands, across
/// the live file and the siblings it retires, is exactly the framed records in
/// the order they were dequeued: each record once, contiguous, none reordered.
pub proof fn lemma_records_appended_in_order(
    live: Seq<char>,
    fmt: FormattingConfig,
    cmds: Seq<FileWriterCommand>,
    time: Seq<char>,
)
    requires
        !fmt.startingmsg,
        !fmt.endingmsg,
    ensures
        appended_bytes(plans_for(live, fmt, cmds, time)) == records_text(cmds),
    decreases cmds.len(),
{
    if cmds.len() > 0 {
        let init = cmds.drop_last();
        lemma_records_appended_in_order(live, fmt, init, time);
        let plan = command_plan_spec(live, fmt, cmds.last(), time);
        lemma_appended_bytes_concat(plans_for(live, fmt, init, time), plan);
        match cmds.last() {
            FileWriterCommand::Rename(t) => {
                let ops = seq![FileOpView::Rename(live, t@), FileOpView::OpenTruncate(live)];
                assert(plan =~= ops);
                let first = ops.drop_last();
                assert(first.drop_last() =~= Seq::<FileOpView>::empty());
                assert(appended_bytes(first.drop_last()) =~= Seq::<u8>::empty());
                assert(appended_bytes(first) =~= Seq::<u8>::empty());
                assert(appended_bytes(plan) =~= Seq::<u8>::empty());
            },
            _ => {
                assert(plan.drop_last() =~= Seq::<FileOpView>::empty());
                assert(appended_bytes(plan.drop_last()) =~= Seq::<u8>::empty());
            },
        }
        assert(appended_bytes(plans_for(live, fmt, cmds, time)) =~= records_text(cmds));
    }
}

} // verus!

//! The records that describe a blocked acquisition.
//!
//! Nothing here writes to a log: the functions make the records, each with
//! its level and its text, and the caller hands them to the logger it uses.

use crate::stacktrace_util::BacktrackError;
use crate::stacktrace_util::Frame;
use crate::stacktrace_util::FrameView;
use crate::stacktrace_util::Stracktrace;
use crate::stacktrace_util::StracktraceView;
use crate::stacktrace_util::ThreadInfo;
use crate::stacktrace_util::ThreadInfoView;
use crate::text::decimal;
use crate::text::decimal_text;
use vstd::prelude::*;

verus! {

/// Which permit an acquisition asks for.
#[derive(Debug, PartialEq, Eq, Clone, Copy, Structural)]
pub enum PermitKind {
    /// The shared permit of a reader.
    Read,
    /// The exclusive permit of a writer.
    Write,
}

/// How much a record matters.
#[derive(Debug, PartialEq, Eq, Clone, Copy, Structural)]
pub enum Level {
    Debug,
    Info,
    Warn,
}

/// One line for the log.
#[derive(Debug, PartialEq, Eq)]
pub struct LogRecord {
    pub level: Level,
    pub message: String,
}

/// A record as contracts see it.
pub struct LogRecordView {
    pub level: Level,
    pub message: Seq<char>,
}

impl DeepView for LogRecord {
    type V = LogRecordView;

    open spec fn deep_view(&self) -> LogRecordView {
        LogRecordView { level: self.level, message: self.message@ }
    }
}

impl View for LogRecord {
    type V = LogRecordView;

    open spec fn view(&self) -> LogRecordView {
        self.deep_view()
    }
}

/// The tag that the records of a lock carry: that of the trace taken where
/// the lock was made, or `n/a` where there is none.
pub open spec fn lock_identifier(created: Option<StracktraceView>) -> Seq<char> {
    match created {
        None => "n/a"@,
        Some(trace) => trace.hash,
    }
}

/// What every line of a group of frames begins with: the tag of the lock
/// between a bar and an angle bracket, then a tab.
pub open spec fn tag_mark(locktag: Seq<char>) -> Seq<char> {
    " |"@ + locktag + ">\t"@
}

/// The line that opens a group of frames: the mark, the message, a colon.
pub open spec fn heading_line(msg: Seq<char>, locktag: Seq<char>) -> Seq<char> {
    tag_mark(locktag) + msg + ":"@
}

/// The line of one frame: the mark, then, set in by two blanks, source file,
/// function and line with colons between them.
pub open spec fn frame_line(locktag: Seq<char>, frame: FrameView) -> Seq<char> {
    tag_mark(locktag) + "  "@ + frame.filename + ":"@ + frame.method + ":"@ + decimal_text(
        frame.line_no as nat,
    )
}

/// The lines of the frames, in their order.
pub open spec fn frame_records(locktag: Seq<char>, frames: Seq<FrameView>) -> Seq<LogRecordView> {
    Seq::new(
        frames.len(),
        |i: int| LogRecordView { level: Level::Debug, message: frame_line(locktag, frames[i]) },
    )
}

/// A group of records for one trace: the heading, then a line for each frame.
pub open spec fn trace_records(msg: Seq<char>, locktag: Seq<char>, trace: StracktraceView) -> Seq<
    LogRecordView,
> {
    seq![LogRecordView { level: Level::Debug, message: heading_line(msg, locktag) }]
        + frame_records(locktag, trace.frames)
}

/// The group of records for a trace that may be missing: nothing where it is.
pub open spec fn group_records(
    msg: Seq<char>,
    locktag: Seq<char>,
    trace: Option<StracktraceView>,
) -> Seq<LogRecordView> {
    match trace {
        None => Seq::empty(),
        Some(trace) => trace_records(msg, locktag, trace),
    }
}

/// The word for the party that waits.
pub open spec fn waiter_word(kind: PermitKind) -> Seq<char> {
    match kind {
        PermitKind::Read => "READER"@,
        PermitKind::Write => "WRITER"@,
    }
}

/// The line that sums up a blocked acquisition.
pub open spec fn summary_line(
    kind: PermitKind,
    thread: ThreadInfoView,
    elapsed: Seq<char>,
    locktag: Seq<char>,
) -> Seq<char> {
    waiter_word(kind) + " BLOCKED on thread "@ + thread.text() + " for "@ + elapsed
        + " (locktag "@ + locktag + ")"@
}

/// All records of one blocked acquisition: the summary, then the frames of
/// the blocked call, of the latest holder and of the place where the lock was
/// made, each group only where its trace is known.
pub open spec fn blocked_records(
    kind: PermitKind,
    elapsed: Seq<char>,
    thread: ThreadInfoView,
    created: Option<StracktraceView>,
    holder: Option<StracktraceView>,
    caller: Option<StracktraceView>,
) -> Seq<LogRecordView> {
    let locktag = lock_identifier(created);
    seq![
        LogRecordView {
            level: Level::Info,
            message: summary_line(kind, thread, elapsed, locktag),
        },
    ] + group_records("blocking call"@, locktag, caller) + group_records(
        "current lock holder"@,
        locktag,
        holder,
    ) + group_records("rwlock constructed here"@, locktag, created)
}

/// Gives the tag that the records of a lock carry.
pub fn get_lock_identifier(stacktrace_created: &Option<Stracktrace>) -> (locktag: &str)
    ensures
        locktag@ == lock_identifier(stacktrace_created.deep_view()),
{
    match stacktrace_created {
        None => "n/a",
        Some(stacktrace) => stacktrace.hash.as_str(),
    }
}

/// Writes what every line of a group of frames begins with.
fn tag_text(locktag: &str) -> (mark: String)
    ensures
        mark@ == tag_mark(locktag@),
{
    let mut mark = String::from_str(" |");
    mark.append(locktag);
    mark.append(">\t");
    mark
}

/// Writes the line of one frame.
fn frame_text(locktag: &str, frame: &Frame) -> (line: String)
    ensures
        line@ == frame_line(locktag@, frame@),
{
    let mut line = tag_text(locktag);
    line.append("  ");
    line.append(frame.filename.as_str());
    line.append(":");
    line.append(frame.method.as_str());
    line.append(":");
    let line_no = decimal(frame.line_no);
    line.append(line_no.as_str());
    line
}

/// Adds the group of records for one trace to the records.
fn push_frames(records: &mut Vec<LogRecord>, msg: &str, locktag: &str, stacktrace: &Stracktrace)
    ensures
        final(records).deep_view() == old(records).deep_view() + trace_records(
            msg@,
            locktag@,
            stacktrace@,
        ),
{
    let ghost before = records.deep_view();
    let ghost frames = stacktrace@.frames;
    let mut heading = tag_text(locktag);
    heading.append(msg);
    heading.append(":");
    let ghost first = LogRecordView { level: Level::Debug, message: heading@ };
    records.push(LogRecord { level: Level::Debug, message: heading });
    let mut i: usize = 0;
    while i < stacktrace.frames.len()
        invariant
            i <= stacktrace.frames.len(),
            frames == stacktrace@.frames,
            records.deep_view() == before + seq![first] + frame_records(locktag@, frames).take(
                i as int,
            ),
        decreases stacktrace.frames.len() - i,
    {
        let ghost sofar = records.deep_view();
        let message = frame_text(locktag, &stacktrace.frames[i]);
        records.push(LogRecord { level: Level::Debug, message });
        assert(sofar.push(frame_records(locktag@, frames)[i as int]) =~= before + seq![first]
            + frame_records(locktag@, frames).take(i + 1));
        i += 1;
    }
}

/// Adds the group of records for a trace that may be missing.
fn push_group(
    records: &mut Vec<LogRecord>,
    msg: &str,
    locktag: &str,
    stacktrace: &Option<Stracktrace>,
)
    ensures
        final(records).deep_view() == old(records).deep_view() + group_records(
            msg@,
            locktag@,
            stacktrace.deep_view(),
        ),
{
    match stacktrace {
        None => {},
        Some(stacktrace) => {
            push_frames(records, msg, locktag, stacktrace);
        },
    }
}

/// Makes the group of records for one trace: a heading with the message,
/// then a line for each frame, all of them with the tag in front.
pub fn log_frames(msg: &str, locktag: &str, stacktrace: &Stracktrace) -> (records: Vec<LogRecord>)
    ensures
        records.deep_view() == trace_records(msg@, locktag@, stacktrace@),
{
    let mut records: Vec<LogRecord> = Vec::new();
    push_frames(&mut records, msg, locktag, stacktrace);
    records
}

/// Makes all records of one blocked acquisition out of what is known of it.
/// `elapsed` is the time waited so far, as it is to be printed.
pub fn blocked_event(
    kind: PermitKind,
    elapsed: &str,
    thread: &ThreadInfo,
    stacktrace_created: &Option<Stracktrace>,
    last_returned_lock_from: &Option<Stracktrace>,
    stacktrace_caller: &Option<Stracktrace>,
) -> (records: Vec<LogRecord>)
    ensures
        records.deep_view() == blocked_records(
            kind,
            elapsed@,
            thread@,
            stacktrace_created.deep_view(),
            last_returned_lock_from.deep_view(),
            stacktrace_caller.deep_view(),
        ),
{
    let locktag = get_lock_identifier(stacktrace_created);
    let mut summary = match kind {
        PermitKind::Read => String::from_str("READER"),
        PermitKind::Write => String::from_str("WRITER"),
    };
    summary.append(" BLOCKED on thread ");
    let thread_text = thread.to_string();
    summary.append(thread_text.as_str());
    summary.append(" for ");
    summary.append(elapsed);
    summary.append(" (locktag ");
    summary.append(locktag);
    summary.append(")");
    let mut records: Vec<LogRecord> = Vec::new();
    records.push(LogRecord { level: Level::Info, message: summary });
    push_group(&mut records, "blocking call", locktag, stacktrace_caller);
    push_group(&mut records, "current lock holder", locktag, last_returned_lock_from);
    push_group(&mut records, "rwlock constructed here", locktag, stacktrace_created);
    records
}

/// The text that the standard library's `Debug` form of a
/// `std::time::Duration` of that many nanoseconds has.
pub uninterp spec fn duration_text(nanos: u64) -> Seq<char>;

/// Formats `std::time::Duration::from_nanos(nanos)` with `{:?}`. The text is
/// a function of the number alone; the contract gives it a name and claims
/// nothing else of it.
#[verifier::external_body]
fn format_elapsed(nanos: u64) -> (text: String)
    ensures
        text@ == duration_text(nanos),
{
    format!("{:?}", std::time::Duration::from_nanos(nanos))
}

/// Makes the records of a writer's blocked acquisition: the wait has lasted
/// `elapsed_nanos` nanoseconds and was found at failed attempt `_cnt`, which
/// the records do not show.
pub fn handle_blocked_writer_event(
    elapsed_nanos: u64,
    _cnt: u64,
    thread: &ThreadInfo,
    stacktrace_created: &Option<Stracktrace>,
    last_returned_lock_from: &Option<Stracktrace>,
    stacktrace_caller: &Option<Stracktrace>,
) -> (records: Vec<LogRecord>)
    ensures
        records.deep_view() == blocked_records(
            PermitKind::Write,
            duration_text(elapsed_nanos),
            thread@,
            stacktrace_created.deep_view(),
            last_returned_lock_from.deep_view(),
            stacktrace_caller.deep_view(),
        ),
{
    let elapsed = format_elapsed(elapsed_nanos);
    blocked_event(
        PermitKind::Write,
        elapsed.as_str(),
        thread,
        stacktrace_created,
        last_returned_lock_from,
        stacktrace_caller,
    )
}

/// Makes the records of a reader's blocked acquisition: the wait has lasted
/// `elapsed_nanos` nanoseconds and was found at failed attempt `_cnt`, which
/// the records do not show.
pub fn handle_blocked_reader_event(
    elapsed_nanos: u64,
    _cnt: u64,
    thread: &ThreadInfo,
    stacktrace_created: &Option<Stracktrace>,
    last_returned_lock_from: &Option<Stracktrace>,
    stacktrace_caller: &Option<Stracktrace>,
) -> (records: Vec<LogRecord>)
    ensures
        records.deep_view() == blocked_records(
            PermitKind::Read,
            duration_text(elapsed_nanos),
            thread@,
            stacktrace_created.deep_view(),
            last_returned_lock_from.deep_view(),
            stacktrace_caller.deep_view(),
        ),
{
    let elapsed = format_elapsed(elapsed_nanos);
    blocked_event(
        PermitKind::Read,
        elapsed.as_str(),
        thread,
        stacktrace_created,
        last_returned_lock_from,
        stacktrace_caller,
    )
}

/// The records of the making of a lock: a note that names the library's
/// version, and a warning where no trace could be taken.
pub open spec fn creation_records(version: Seq<char>, failure: Option<BacktrackError>) -> Seq<
    LogRecordView,
> {
    let note = LogRecordView {
        level: Level::Info,
        message: "NEW WRAPPED RWLOCK (v"@ + version + ")"@,
    };
    match failure {
        None => seq![note],
        Some(error) => seq![
            note,
            LogRecordView {
                level: Level::Warn,
                message: "Unable to determine stacktrace - continue without! (error: "@
                    + error.text() + ")"@,
            },
        ],
    }
}

/// Makes the records of the making of a lock. `failure` says why no trace
/// could be taken where the lock was made, if none could.
pub fn creation_event(version: &str, failure: Option<BacktrackError>) -> (records: Vec<LogRecord>)
    ensures
        records.deep_view() == creation_records(version@, failure),
{
    let mut note = String::from_str("NEW WRAPPED RWLOCK (v");
    note.append(version);
    note.append(")");
    let mut records: Vec<LogRecord> = Vec::new();
    records.push(LogRecord { level: Level::Info, message: note });
    match failure {
        None => {},
        Some(error) => {
            let mut warning = String::from_str(
                "Unable to determine stacktrace - continue without! (error: ",
            );
            let words = error.to_string();
            warning.append(words.as_str());
            warning.append(")");
            records.push(LogRecord { level: Level::Warn, message: warning });
        },
    }
    records
}

/// Every line of a group of frames begins with the tag of the lock, so that
/// a search for the tag's mark finds all of them.
pub proof fn frame_lines_carry_the_tag(msg: Seq<char>, locktag: Seq<char>, trace: StracktraceView)
    ensures
        trace_records(msg, locktag, trace).len() == 1 + trace.frames.len(),
        forall|i: int|
            0 <= i < trace_records(msg, locktag, trace).len() ==> tag_mark(locktag).is_prefix_of(
                #[trigger] trace_records(msg, locktag, trace)[i].message,
            ),
{
}

/// The summary of a blocked acquisition ends with the tag of the lock, and
/// the tag of a lock without a trace is `n/a`.
pub proof fn summary_carries_the_tag(
    kind: PermitKind,
    elapsed: Seq<char>,
    thread: ThreadInfoView,
    created: Option<StracktraceView>,
    holder: Option<StracktraceView>,
    caller: Option<StracktraceView>,
)
    ensures
        blocked_records(kind, elapsed, thread, created, holder, caller).len() >= 1,
        blocked_records(kind, elapsed, thread, created, holder, caller)[0].level == Level::Info,
        (" (locktag "@ + lock_identifier(created) + ")"@).is_suffix_of(
            blocked_records(kind, elapsed, thread, created, holder, caller)[0].message,
        ),
        created is None ==> lock_identifier(created) == "n/a"@,
{
}

} // verus!

//! Call traces: what a trace holds, how its tag is made, and how one is taken
//! of the calling thread.

use crate::text::starts_with;
use crate::walk::classify_all;
use crate::walk::trace_from_entries;
use crate::walk::trace_of;
use crate::walk::walk_of;
use crate::walk::RawSymbol;
use crate::walk::RawSymbolView;
use crate::walk::WalkEntryView;
use vstd::prelude::*;

verus! {

/// The most frames that a trace holds.
pub const FRAMES_LIMIT: usize = 99;

/// One resolved entry of the call stack.
#[derive(Debug, PartialEq, Eq)]
pub struct Frame {
    pub method: String,
    pub filename: String,
    pub line_no: u32,
}

/// A frame as contracts see it.
pub struct FrameView {
    pub method: Seq<char>,
    pub filename: Seq<char>,
    pub line_no: u32,
}

impl DeepView for Frame {
    type V = FrameView;

    open spec fn deep_view(&self) -> FrameView {
        FrameView { method: self.method@, filename: self.filename@, line_no: self.line_no }
    }
}

impl View for Frame {
    type V = FrameView;

    open spec fn view(&self) -> FrameView {
        self.deep_view()
    }
}

impl Clone for Frame {
    fn clone(&self) -> (copy: Self)
        ensures
            copy@ == self@,
    {
        Frame {
            method: self.method.clone(),
            filename: self.filename.clone(),
            line_no: self.line_no,
        }
    }
}

/// The frames of a call stack, innermost first, with a short tag that is made
/// from the address of the first of them. The tag serves to find the trace
/// again in a long log; two traces may share one.
#[derive(Debug, PartialEq, Eq)]
pub struct Stracktrace {
    pub frames: Vec<Frame>,
    pub hash: String,
}

/// A trace as contracts see it.
pub struct StracktraceView {
    pub frames: Seq<FrameView>,
    pub hash: Seq<char>,
}

impl StracktraceView {
    /// What holds of every trace that a walk gives: it has a first frame, and
    /// no more frames than the limit.
    pub open spec fn well_formed(self) -> bool {
        1 <= self.frames.len() <= FRAMES_LIMIT
    }
}

impl DeepView for Stracktrace {
    type V = StracktraceView;

    open spec fn deep_view(&self) -> StracktraceView {
        StracktraceView { frames: self.frames.deep_view(), hash: self.hash@ }
    }
}

impl View for Stracktrace {
    type V = StracktraceView;

    open spec fn view(&self) -> StracktraceView {
        self.deep_view()
    }
}

impl Clone for Stracktrace {
    fn clone(&self) -> (copy: Self)
        ensures
            copy@ == self@,
    {
        let mut frames: Vec<Frame> = Vec::new();
        let mut i: usize = 0;
        while i < self.frames.len()
            invariant
                i <= self.frames.len(),
                frames.len() == i,
                forall|j: int| 0 <= j < i ==> frames[j]@ == self.frames[j]@,
            decreases self.frames.len() - i,
        {
            frames.push(self.frames[i].clone());
            i += 1;
        }
        assert(frames.deep_view() =~= self.frames.deep_view());
        Stracktrace { frames, hash: self.hash.clone() }
    }
}

/// Why no trace could be made.
#[derive(Debug, PartialEq, Eq, Clone, Copy)]
pub enum BacktrackError {
    /// Symbols were seen, but the trace never started: every symbol up to the
    /// end of the walk was left out.
    NoStartFrame,
    /// The walk saw no symbol at all, as in a build without debug symbols.
    NoDebugSymbols,
}

impl BacktrackError {
    /// The words that say why no trace could be made.
    pub open spec fn text(self) -> Seq<char> {
        match self {
            BacktrackError::NoStartFrame => "Start Frame not found!"@,
            BacktrackError::NoDebugSymbols => "No debug symbols! Did you build in release mode?"@,
        }
    }

    /// Says in words why no trace could be made.
    pub fn to_string(&self) -> (words: String)
        ensures
            words@ == self.text(),
    {
        match self {
            BacktrackError::NoStartFrame => String::from_str("Start Frame not found!"),
            BacktrackError::NoDebugSymbols => String::from_str(
                "No debug symbols! Did you build in release mode?",
            ),
        }
    }
}

/// The outcome of making a trace as contracts see it.
pub open spec fn outcome_view(made: Result<Stracktrace, BacktrackError>) -> Result<
    StracktraceView,
    BacktrackError,
> {
    match made {
        Ok(trace) => Ok(trace@),
        Err(e) => Err(e),
    }
}

/// The thread that an acquisition runs on: its identifier, as the platform
/// prints it, and its name.
#[derive(Debug, PartialEq, Eq)]
pub struct ThreadInfo {
    pub thread_id: String,
    pub name: String,
}

/// A thread as contracts see it.
pub struct ThreadInfoView {
    pub thread_id: Seq<char>,
    pub name: Seq<char>,
}

impl ThreadInfoView {
    /// The thread in one word: its name, a colon, its identifier.
    pub open spec fn text(self) -> Seq<char> {
        self.name + ":"@ + self.thread_id
    }
}

impl DeepView for ThreadInfo {
    type V = ThreadInfoView;

    open spec fn deep_view(&self) -> ThreadInfoView {
        ThreadInfoView { thread_id: self.thread_id@, name: self.name@ }
    }
}

impl View for ThreadInfo {
    type V = ThreadInfoView;

    open spec fn view(&self) -> ThreadInfoView {
        self.deep_view()
    }
}

impl ThreadInfo {
    /// Writes the thread in one word: its name, a colon, its identifier.
    pub fn to_string(&self) -> (words: String)
        ensures
            words@ == self@.text(),
    {
        let mut words = self.name.clone();
        words.append(":");
        words.append(self.thread_id.as_str());
        words
    }
}

/// The four bytes that a tag is made from: the low 32 bits of the address,
/// most significant byte first.
pub open spec fn tag_bytes(ip: u64) -> Seq<u8> {
    let low = ip as int % 0x1_0000_0000;
    seq![
        (low / 0x100_0000) as u8,
        (low / 0x1_0000 % 0x100) as u8,
        (low / 0x100 % 0x100) as u8,
        (low % 0x100) as u8,
    ]
}

/// The tag of a trace whose first frame has the instruction address `ip`.
pub open spec fn address_tag(ip: u64) -> Seq<char> {
    base58_text(tag_bytes(ip))
}

/// The text that the base58 encoder makes of the bytes.
pub uninterp spec fn base58_text(bytes: Seq<u8>) -> Seq<char>;

/// Calls `to_base58` of the base58 crate on the bytes. The encoder is a
/// function of its input alone; the contract gives its output a name and
/// claims nothing else of it. The crate works on inputs of 128 bytes at most.
#[verifier::external_body]
fn to_base58(bytes: &[u8]) -> (text: String)
    requires
        bytes@.len() <= 128,
    ensures
        text@ == base58_text(bytes@),
{
    base58::ToBase58::to_base58(bytes)
}

/// Splits the low 32 bits of the address into four bytes, most significant
/// byte first.
pub fn address_bytes(ip: u64) -> (bytes: [u8; 4])
    ensures
        bytes@ == tag_bytes(ip),
{
    let low: u64 = ip % 0x1_0000_0000;
    let bytes: [u8; 4] = [
        (low / 0x100_0000) as u8,
        (low / 0x1_0000 % 0x100) as u8,
        (low / 0x100 % 0x100) as u8,
        (low % 0x100) as u8,
    ];
    bytes
}

/// Makes the tag of a trace whose first frame has the instruction address
/// `ip`.
pub fn tag_for(ip: u64) -> (tag: String)
    ensures
        tag@ == address_tag(ip),
{
    let bytes: [u8; 4] = address_bytes(ip);
    to_base58(bytes.as_slice())
}

/// Walks the call stack of the calling thread with `backtrace::trace`,
/// resolves each stack frame with `backtrace::resolve_frame`, and hands out
/// every symbol that came, innermost first, as plain values. What comes
/// depends on the program, on its build and on where it is called: the
/// contract claims nothing of it.
#[verifier::external_body]
fn capture_symbols() -> (symbols: Vec<RawSymbol>) {
    let mut symbols = Vec::new();
    backtrace::trace(|frame| {
        backtrace::resolve_frame(frame, |symbol| {
            symbols.push(RawSymbol {
                ip: frame.ip() as u64,
                name: symbol.name().map(|name| name.to_string()),
                filename: symbol.filename().map(|path| path.to_string_lossy().into_owned()),
                lineno: symbol.lineno(),
            });
        });
        true
    });
    symbols
}

/// Whether the name is that of a function of this library.
pub open spec fn is_library_symbol(name: Seq<char>) -> bool {
    "rust_debugging_locks:"@.is_prefix_of(name)
}

/// Tells whether the name is that of a function of this library: the
/// predicate that the lock hands to `backtrack_frame` for its own traces.
pub fn is_library_frame(symbol_name: &str) -> (own: bool)
    ensures
        own == is_library_symbol(symbol_name@),
{
    starts_with(symbol_name, "rust_debugging_locks:")
}

/// Whether a walk over some call stack, with answers that the predicate can
/// give, comes to this outcome.
pub open spec fn is_backtrack<F: Fn(&str) -> bool>(
    skip: &F,
    made: Result<StracktraceView, BacktrackError>,
) -> bool {
    exists|symbols: Seq<RawSymbolView>, entries: Seq<WalkEntryView>|
        #[trigger] walk_of(skip, symbols, entries) && made == trace_of(entries)
}

/// Makes the trace out of the symbols of a walk: sorts them, asking the
/// caller's predicate which to leave out, and picks the frames.
pub fn backtrack_symbols<F: Fn(&str) -> bool>(symbols: &Vec<RawSymbol>, fn_skip_frame: F) -> (made:
    Result<Stracktrace, BacktrackError>)
    requires
        forall|name: &str| call_requires(fn_skip_frame, (name,)),
    ensures
        exists|entries: Seq<WalkEntryView>|
            walk_of(&fn_skip_frame, symbols.deep_view(), entries) && outcome_view(made)
                == #[trigger] trace_of(entries),
        made matches Ok(trace) ==> trace@.well_formed(),
{
    let entries = classify_all(symbols, &fn_skip_frame);
    let made = trace_from_entries(&entries);
    made
}

/// Returns the frames of the calling thread's stack, innermost first,
/// starting with the first that the predicate does not ask to leave out.
///
/// The stack is what it is when the call is made, so the contract speaks of
/// some walk; `backtrack_symbols` says what is made of given symbols.
pub fn backtrack_frame<F: Fn(&str) -> bool>(fn_skip_frame: F) -> (made: Result<
    Stracktrace,
    BacktrackError,
>)
    requires
        forall|name: &str| call_requires(fn_skip_frame, (name,)),
    ensures
        is_backtrack(&fn_skip_frame, outcome_view(made)),
        made matches Ok(trace) ==> trace@.well_formed(),
{
    let symbols = capture_symbols();
    backtrack_symbols(&symbols, fn_skip_frame)
}

} // verus!

//! The walk over the symbols of a call stack: how each symbol is sorted, and
//! which of them make the trace.
//!
//! A walk goes from the innermost symbol outwards. It passes over what it
//! cannot resolve, starts the trace at the first symbol that is neither its
//! own nor left out by the caller, records from there on, and ends in front
//! of the runtime that started the program, or when the trace is full.

use crate::stacktrace_util::address_tag;
use crate::stacktrace_util::outcome_view;
use crate::stacktrace_util::tag_for;
use crate::stacktrace_util::BacktrackError;
use crate::stacktrace_util::Frame;
use crate::stacktrace_util::FrameView;
use crate::stacktrace_util::Stracktrace;
use crate::stacktrace_util::StracktraceView;
use crate::stacktrace_util::FRAMES_LIMIT;
use crate::text::starts_with;
use vstd::prelude::*;

verus! {

/// One symbol as the stack walker hands it out: the instruction address of
/// the stack frame it belongs to, and what could be resolved of its name, of
/// the path of its source file and of its line.
#[derive(Debug, PartialEq, Eq)]
pub struct RawSymbol {
    pub ip: u64,
    pub name: Option<String>,
    pub filename: Option<String>,
    pub lineno: Option<u32>,
}

/// A symbol of the walker as contracts see it.
pub struct RawSymbolView {
    pub ip: u64,
    pub name: Option<Seq<char>>,
    pub filename: Option<Seq<char>>,
    pub lineno: Option<u32>,
}

impl DeepView for RawSymbol {
    type V = RawSymbolView;

    open spec fn deep_view(&self) -> RawSymbolView {
        RawSymbolView {
            ip: self.ip,
            name: self.name.deep_view(),
            filename: self.filename.deep_view(),
            lineno: self.lineno,
        }
    }
}

impl View for RawSymbol {
    type V = RawSymbolView;

    open spec fn view(&self) -> RawSymbolView {
        self.deep_view()
    }
}

/// One symbol of the walk, sorted by what the walk does with it.
#[derive(Debug, PartialEq, Eq)]
pub enum WalkEntry {
    /// A symbol that lacks a part of what a frame holds. It counts as seen and
    /// is passed over.
    Unresolved,
    /// A symbol whose source file belongs to the runtime that started the
    /// program. The walk ends in front of it.
    Boundary,
    /// A symbol with all that a frame holds.
    Located {
        /// The instruction address of the stack frame that the symbol is for.
        ip: u64,
        /// The frame as a trace records it.
        frame: Frame,
        /// Whether a trace may start here: not at a symbol of the walker
        /// itself, and not at one that the caller asked to leave out.
        eligible: bool,
    },
}

/// A walk entry as contracts see it.
pub enum WalkEntryView {
    Unresolved,
    Boundary,
    Located { ip: u64, frame: FrameView, eligible: bool },
}

impl DeepView for WalkEntry {
    type V = WalkEntryView;

    open spec fn deep_view(&self) -> WalkEntryView {
        match self {
            WalkEntry::Unresolved => WalkEntryView::Unresolved,
            WalkEntry::Boundary => WalkEntryView::Boundary,
            WalkEntry::Located { ip, frame, eligible } => WalkEntryView::Located {
                ip: *ip,
                frame: frame@,
                eligible: *eligible,
            },
        }
    }
}

impl View for WalkEntry {
    type V = WalkEntryView;

    open spec fn view(&self) -> WalkEntryView {
        self.deep_view()
    }
}

/// Whether `std::path::Path::starts_with` finds the path to begin with the
/// components of `base`.
pub uninterp spec fn path_starts_with(path: Seq<char>, base: Seq<char>) -> bool;

/// What `std::path::Path::file_name` gives as the last component of the path.
pub uninterp spec fn path_file_name(path: Seq<char>) -> Option<Seq<char>>;

/// Calls `std::path::Path::starts_with`, which compares whole components. The
/// contract gives the answer a name and claims nothing else of it.
#[verifier::external_body]
fn path_is_under(path: &str, base: &str) -> (under: bool)
    ensures
        under == path_starts_with(path@, base@),
{
    std::path::Path::new(path).starts_with(base)
}

/// Calls `std::path::Path::file_name`, which gives the last component of the
/// path unless the path ends in `..` or has no component. The contract gives
/// the answer a name and claims nothing else of it.
#[verifier::external_body]
fn path_last_component(path: &str) -> (last: Option<String>)
    ensures
        last.deep_view() == path_file_name(path@),
{
    std::path::Path::new(path).file_name().map(|name| name.to_string_lossy().into_owned())
}

/// Whether the name is that of a function of the stack walker itself.
pub open spec fn is_walker_symbol(name: Seq<char>) -> bool {
    "backtrace::backtrace::"@.is_prefix_of(name)
}

/// Whether the path lies in the sources of the runtime that starts a program.
pub open spec fn in_runtime_sources(path: Seq<char>) -> bool {
    path_starts_with(path, "/rustc"@)
}

/// The entry that the walk makes of a symbol before the caller is asked,
/// given what the path of its source file tells: whether it lies in the
/// runtime's sources, and its last component.
///
/// Without the path of a source file the symbol is unresolved. With a path in
/// the runtime's sources it is the boundary. Else it is located if it has a
/// name, a line and a last path component, and unresolved if one is missing.
/// A located symbol is eligible unless it is the walker's own.
pub open spec fn sorted(
    symbol: RawSymbolView,
    in_runtime: bool,
    file_name: Option<Seq<char>>,
) -> WalkEntryView {
    if symbol.filename is None {
        WalkEntryView::Unresolved
    } else if in_runtime {
        WalkEntryView::Boundary
    } else {
        match (symbol.name, symbol.lineno, file_name) {
            (Some(name), Some(line_no), Some(filename)) => WalkEntryView::Located {
                ip: symbol.ip,
                frame: FrameView { method: name, filename, line_no },
                eligible: !is_walker_symbol(name),
            },
            _ => WalkEntryView::Unresolved,
        }
    }
}

/// The entry after the caller's answer: an eligible entry that the caller
/// asks to leave out is eligible no more; nothing else changes.
pub open spec fn answered(entry: WalkEntryView, skipped: bool) -> WalkEntryView {
    match entry {
        WalkEntryView::Located { ip, frame, eligible } => WalkEntryView::Located {
            ip,
            frame,
            eligible: eligible && !skipped,
        },
        other => other,
    }
}

/// The entry that the walk makes of a symbol before the caller is asked.
pub open spec fn presorted(symbol: RawSymbolView) -> WalkEntryView {
    match symbol.filename {
        None => WalkEntryView::Unresolved,
        Some(path) => sorted(symbol, in_runtime_sources(path), path_file_name(path)),
    }
}

/// Whether the symbol is one that the caller is asked about: a located one
/// that is not the walker's own.
pub open spec fn asks_caller(symbol: RawSymbolView) -> bool {
    presorted(symbol) matches WalkEntryView::Located { eligible: true, .. }
}

/// The entry that the walk makes of a symbol, where the caller answered
/// `skipped` when asked whether to leave the symbol out.
pub open spec fn classified(symbol: RawSymbolView, skipped: bool) -> WalkEntryView {
    answered(presorted(symbol), skipped)
}

/// Whether `answer` is one that the predicate can give for the name.
pub open spec fn may_answer<F: Fn(&str) -> bool>(skip: &F, name: Seq<char>, answer: bool) -> bool {
    exists|asked: &str| asked@ == name && call_ensures(*skip, (asked,), answer)
}

/// Whether `entry` is what the walk makes of `symbol` with some answer that
/// the predicate can give.
pub open spec fn classifies<F: Fn(&str) -> bool>(
    skip: &F,
    symbol: RawSymbolView,
    entry: WalkEntryView,
) -> bool {
    exists|answer: bool|
        {
            &&& entry == #[trigger] classified(symbol, answer)
            &&& asks_caller(symbol) ==> may_answer(skip, symbol.name->0, answer)
        }
}

/// Whether `entries` is what the walk makes of `symbols`, one entry for each
/// symbol, with answers that the predicate can give.
pub open spec fn walk_of<F: Fn(&str) -> bool>(
    skip: &F,
    symbols: Seq<RawSymbolView>,
    entries: Seq<WalkEntryView>,
) -> bool {
    &&& entries.len() == symbols.len()
    &&& forall|i: int| 0 <= i < symbols.len() ==> classifies(skip, symbols[i], #[trigger] entries[i])
}

/// Whether the predicate answers by the name alone, as `rule` says.
pub open spec fn answers_by<F: Fn(&str) -> bool>(skip: &F, rule: spec_fn(Seq<char>) -> bool) -> bool {
    forall|name: &str, answer: bool| #[trigger]
        call_ensures(*skip, (name,), answer) ==> answer == rule(name@)
}

/// The entries that the walk makes of the symbols where the caller's answers
/// follow `rule`.
pub open spec fn classified_by(symbols: Seq<RawSymbolView>, rule: spec_fn(Seq<char>) -> bool) -> Seq<
    WalkEntryView,
> {
    Seq::new(symbols.len(), |i: int| classified(symbols[i], rule(symbols[i].name->0)))
}

/// The frames that a started trace records out of the entries ahead of it:
/// the located ones in front of the first boundary entry, `room` at most.
pub open spec fn recorded(entries: Seq<WalkEntryView>, room: nat) -> Seq<FrameView>
    decreases entries.len(),
{
    if entries.len() == 0 {
        Seq::empty()
    } else {
        match entries[0] {
            WalkEntryView::Unresolved => recorded(entries.drop_first(), room),
            WalkEntryView::Boundary => Seq::empty(),
            WalkEntryView::Located { frame, .. } => if room == 0 {
                Seq::empty()
            } else {
                seq![frame] + recorded(entries.drop_first(), (room - 1) as nat)
            },
        }
    }
}

/// Where the trace starts: the address and the position of the first eligible
/// entry in front of the first boundary entry, if there is one.
pub open spec fn start_of(entries: Seq<WalkEntryView>) -> Option<(u64, int)>
    decreases entries.len(),
{
    if entries.len() == 0 {
        None
    } else {
        match entries[0] {
            WalkEntryView::Boundary => None,
            WalkEntryView::Located { ip, eligible: true, .. } => Some((ip, 0int)),
            _ => match start_of(entries.drop_first()) {
                Some((ip, at)) => Some((ip, at + 1)),
                None => None,
            },
        }
    }
}

/// The frames of the trace that the entries give, and the address that its
/// tag is made from; or why they give none.
///
/// The trace starts at the first eligible entry in front of the first
/// boundary entry and records the located entries from there to that
/// boundary, `FRAMES_LIMIT` at most. Without such a start there is no trace:
/// for want of symbols where there is no entry at all, for want of a start
/// otherwise.
pub open spec fn selection(entries: Seq<WalkEntryView>) -> Result<
    (Seq<FrameView>, u64),
    BacktrackError,
> {
    match start_of(entries) {
        Some((ip, at)) => Ok((recorded(entries.skip(at), FRAMES_LIMIT as nat), ip)),
        None => if entries.len() == 0 {
            Err(BacktrackError::NoDebugSymbols)
        } else {
            Err(BacktrackError::NoStartFrame)
        },
    }
}

/// The trace that the entries give, or why they give none. Its frames are
/// those of `selection`, its tag is made from the address found there.
pub open spec fn trace_of(entries: Seq<WalkEntryView>) -> Result<StracktraceView, BacktrackError> {
    match selection(entries) {
        Ok((frames, ip)) => Ok(StracktraceView { frames, hash: address_tag(ip) }),
        Err(e) => Err(e),
    }
}

/// Sorts one symbol before the caller is asked, given what the path of its
/// source file tells: whether it lies in the runtime's sources, and its last
/// component.
pub fn sort_symbol(symbol: &RawSymbol, in_runtime: bool, file_name: Option<String>) -> (entry:
    WalkEntry)
    ensures
        entry@ == sorted(symbol@, in_runtime, file_name.deep_view()),
{
    if symbol.filename.is_none() {
        return WalkEntry::Unresolved;
    }
    if in_runtime {
        return WalkEntry::Boundary;
    }
    match (&symbol.name, symbol.lineno, file_name) {
        (Some(name), Some(line_no), Some(filename)) => {
            let walker = starts_with(name.as_str(), "backtrace::backtrace::");
            WalkEntry::Located {
                ip: symbol.ip,
                frame: Frame { method: name.clone(), filename, line_no },
                eligible: !walker,
            }
        },
        _ => WalkEntry::Unresolved,
    }
}

/// Sorts one symbol of the walk. The caller's predicate is asked about a
/// located symbol that is not the walker's own, and about no other.
pub fn classify<F: Fn(&str) -> bool>(symbol: &RawSymbol, skip: &F) -> (entry: WalkEntry)
    requires
        forall|name: &str| call_requires(*skip, (name,)),
    ensures
        classifies(skip, symbol@, entry@),
{
    let presorted = match &symbol.filename {
        None => WalkEntry::Unresolved,
        Some(path) => {
            let in_runtime = path_is_under(path.as_str(), "/rustc");
            let file_name = path_last_component(path.as_str());
            sort_symbol(symbol, in_runtime, file_name)
        },
    };
    match presorted {
        WalkEntry::Located { ip, frame, eligible: true } => {
            let skipped = skip(frame.method.as_str());
            let entry = WalkEntry::Located { ip, frame, eligible: !skipped };
            assert(entry@ == classified(symbol@, skipped));
            entry
        },
        other => other,
    }
}

/// Sorts the symbols of a walk, in their order.
pub fn classify_all<F: Fn(&str) -> bool>(symbols: &Vec<RawSymbol>, skip: &F) -> (entries: Vec<
    WalkEntry,
>)
    requires
        forall|name: &str| call_requires(*skip, (name,)),
    ensures
        walk_of(skip, symbols.deep_view(), entries.deep_view()),
{
    let mut entries: Vec<WalkEntry> = Vec::new();
    let mut i: usize = 0;
    while i < symbols.len()
        invariant
            i <= symbols.len(),
            entries.len() == i,
            forall|name: &str| call_requires(*skip, (name,)),
            forall|j: int| 0 <= j < i ==> classifies(skip, symbols[j]@, #[trigger] entries[j]@),
        decreases symbols.len() - i,
    {
        let entry = classify(&symbols[i], skip);
        entries.push(entry);
        i += 1;
    }
    assert forall|j: int| 0 <= j < symbols.len() implies classifies(
        skip,
        symbols.deep_view()[j],
        #[trigger] entries.deep_view()[j],
    ) by {
        assert(entries.deep_view()[j] == entries[j]@);
    }
    entries
}

/// Picks the frames of the trace out of the entries of a walk, innermost
/// first, and the address that the trace's tag is made from.
pub fn select_frames(entries: &Vec<WalkEntry>) -> (picked: Result<(Vec<Frame>, u64), BacktrackError>)
    ensures
        match picked {
            Ok((frames, ip)) => selection(entries.deep_view()) == Ok::<
                (Seq<FrameView>, u64),
                BacktrackError,
            >((frames.deep_view(), ip)),
            Err(e) => selection(entries.deep_view()) == Err::<(Seq<FrameView>, u64), BacktrackError>(
                e,
            ),
        },
{
    let ghost all = entries.deep_view();
    let mut frames: Vec<Frame> = Vec::new();
    let mut start: Option<u64> = None;
    let ghost mut at: int = 0;
    let mut stop = false;
    let mut i: usize = 0;
    assert(all.skip(0) =~= all);
    while i < entries.len() && !stop
        invariant
            i <= entries.len(),
            all == entries.deep_view(),
            frames.len() <= FRAMES_LIMIT,
            match start {
                None => {
                    &&& frames.len() == 0
                    &&& stop ==> start_of(all) is None
                    &&& !stop ==> start_of(all) == match start_of(all.skip(i as int)) {
                        Some((ip, ahead)) => Some((ip, ahead + i)),
                        None => None,
                    }
                },
                Some(ip) => {
                    &&& 0 <= at <= i
                    &&& start_of(all) == Some((ip, at))
                    &&& stop ==> recorded(all.skip(at), FRAMES_LIMIT as nat) == frames.deep_view()
                    &&& !stop ==> recorded(all.skip(at), FRAMES_LIMIT as nat) == frames.deep_view()
                        + recorded(all.skip(i as int), (FRAMES_LIMIT - frames.len()) as nat)
                },
            },
        decreases entries.len() - i + (if stop { 0int } else { 1int }),
    {
        assert(all.skip(i as int).drop_first() =~= all.skip(i + 1));
        match &entries[i] {
            WalkEntry::Unresolved => {
                i += 1;
            },
            WalkEntry::Boundary => {
                stop = true;
            },
            WalkEntry::Located { ip, frame, eligible } => {
                if frames.len() >= FRAMES_LIMIT {
                    stop = true;
                } else {
                    if start.is_none() && *eligible {
                        start = Some(*ip);
                        proof {
                            at = i as int;
                        }
                    }
                    if start.is_some() {
                        frames.push(frame.clone());
                    }
                    i += 1;
                }
            },
        }
    }
    match start {
        Some(ip) => Ok((frames, ip)),
        None => if entries.len() == 0 {
            Err(BacktrackError::NoDebugSymbols)
        } else {
            Err(BacktrackError::NoStartFrame)
        },
    }
}

/// Makes the trace out of the entries of a walk.
pub fn trace_from_entries(entries: &Vec<WalkEntry>) -> (made: Result<Stracktrace, BacktrackError>)
    ensures
        outcome_view(made) == trace_of(entries.deep_view()),
        made matches Ok(trace) ==> trace@.well_formed(),
{
    proof {
        trace_is_bounded(entries.deep_view());
    }
    match select_frames(entries) {
        Ok((frames, ip)) => Ok(Stracktrace { frames, hash: tag_for(ip) }),
        Err(e) => Err(e),
    }
}

/// A started trace records no more frames than it has room for.
pub proof fn recorded_is_bounded(entries: Seq<WalkEntryView>, room: nat)
    ensures
        recorded(entries, room).len() <= room,
        recorded(entries, room).len() <= entries.len(),
    decreases entries.len(),
{
    if entries.len() > 0 {
        match entries[0] {
            WalkEntryView::Unresolved => {
                recorded_is_bounded(entries.drop_first(), room);
            },
            WalkEntryView::Boundary => {},
            WalkEntryView::Located { .. } => {
                if room > 0 {
                    recorded_is_bounded(entries.drop_first(), (room - 1) as nat);
                }
            },
        }
    }
}

/// Where a trace starts there is an eligible entry, and in front of it there
/// is neither an eligible entry nor a boundary.
pub proof fn start_is_first_eligible(entries: Seq<WalkEntryView>)
    ensures
        match start_of(entries) {
            Some((ip, at)) => {
                &&& 0 <= at < entries.len()
                &&& entries[at] matches WalkEntryView::Located { ip: found, eligible: true, .. }
                &&& found == ip
                &&& forall|j: int|
                    0 <= j < at ==> !(#[trigger] entries[j] is Boundary) && !(entries[j] matches WalkEntryView::Located {
                        eligible: true,
                        ..
                    })
            },
            None => forall|j: int|
                0 <= j < entries.len() && (#[trigger] entries[j] matches WalkEntryView::Located {
                    eligible: true,
                    ..
                }) ==> exists|k: int| 0 <= k < j && entries[k] is Boundary,
        },
    decreases entries.len(),
{
    if entries.len() > 0 {
        let rest = entries.drop_first();
        start_is_first_eligible(rest);
        match entries[0] {
            WalkEntryView::Boundary => {},
            WalkEntryView::Located { eligible: true, .. } => {},
            _ => {
                match start_of(rest) {
                    Some((ip, at)) => {
                        assert forall|j: int| 0 < j < at + 1 implies !(#[trigger] entries[j]
                            is Boundary) && !(entries[j] matches WalkEntryView::Located {
                            eligible: true,
                            ..
                        }) by {
                            assert(entries[j] == rest[j - 1]);
                        }
                    },
                    None => {
                        assert forall|j: int|
                            0 <= j < entries.len() && (#[trigger] entries[j] matches WalkEntryView::Located {
                                eligible: true,
                                ..
                            }) implies exists|k: int| 0 <= k < j && entries[k] is Boundary by {
                            assert(entries[j] == rest[j - 1]);
                        }
                    },
                }
            },
        }
    }
}

/// A trace holds at least one frame and no more than the limit, and its first
/// frame is the entry that it started at.
pub proof fn trace_is_bounded(entries: Seq<WalkEntryView>)
    ensures
        trace_of(entries) matches Ok(trace) ==> {
            &&& trace.well_formed()
            &&& start_of(entries) matches Some((ip, at))
            &&& entries[at] matches WalkEntryView::Located { frame, .. }
            &&& trace.frames[0] == frame
            &&& trace.hash == address_tag(ip)
        },
{
    start_is_first_eligible(entries);
    match start_of(entries) {
        Some((ip, at)) => {
            let ahead = entries.skip(at);
            recorded_is_bounded(ahead, FRAMES_LIMIT as nat);
            recorded_is_bounded(ahead.drop_first(), (FRAMES_LIMIT - 1) as nat);
        },
        None => {},
    }
}

/// A trace starts at the marked entry if that entry is eligible and no entry
/// in front of it is eligible or the boundary: its first frame is the marked
/// one, and its tag is made from the marked entry's address.
pub proof fn trace_starts_at_marker(entries: Seq<WalkEntryView>, marker: int)
    requires
        0 <= marker < entries.len(),
        entries[marker] matches WalkEntryView::Located { eligible: true, .. },
        forall|j: int|
            0 <= j < marker ==> !(#[trigger] entries[j] is Boundary) && !(entries[j] matches WalkEntryView::Located {
                eligible: true,
                ..
            }),
    ensures
        start_of(entries) == Some((entries[marker]->ip, marker)),
        trace_of(entries) matches Ok(trace) && trace.well_formed() && trace.frames[0]
            == entries[marker]->frame && trace.hash == address_tag(entries[marker]->ip),
    decreases marker,
{
    if marker > 0 {
        let rest = entries.drop_first();
        trace_starts_at_marker(rest, marker - 1);
    }
    trace_is_bounded(entries);
}

/// Without any symbol there is no trace for want of symbols; with symbols
/// there is either a trace or none for want of a start.
pub proof fn no_symbols_no_trace(entries: Seq<WalkEntryView>)
    ensures
        entries.len() == 0 <==> trace_of(entries) == Err::<StracktraceView, BacktrackError>(
            BacktrackError::NoDebugSymbols,
        ),
{
}

/// With a predicate that answers by the name alone, the symbols decide the
/// entries of the walk, and so the trace.
pub proof fn walk_is_determined<F: Fn(&str) -> bool>(
    skip: &F,
    rule: spec_fn(Seq<char>) -> bool,
    symbols: Seq<RawSymbolView>,
    entries: Seq<WalkEntryView>,
)
    requires
        answers_by(skip, rule),
        walk_of(skip, symbols, entries),
    ensures
        entries == classified_by(symbols, rule),
{
    assert forall|i: int| 0 <= i < symbols.len() implies entries[i] == classified_by(
        symbols,
        rule,
    )[i] by {
        assert(classifies(skip, symbols[i], entries[i]));
    }
}

} // verus!

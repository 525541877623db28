//! Where a failure was observed: the function, file and line of a frame of the
//! calling thread's stack.
use vstd::prelude::*;
use crate::symbol::{reduce, reduced};
use backtrace::{Backtrace, BacktraceFrame, BacktraceSymbol};

verus! {

/// A captured stack, as the backtrace crate holds it.
#[verifier::external_type_specification]
#[verifier::external_body]
pub struct ExBacktrace(Backtrace);

/// One frame of a captured stack.
#[verifier::external_type_specification]
#[verifier::external_body]
pub struct ExBacktraceFrame(BacktraceFrame);

/// One symbol that a frame resolved to.
#[verifier::external_type_specification]
#[verifier::external_body]
pub struct ExBacktraceSymbol(BacktraceSymbol);

/// Relies on backtrace::Backtrace::new to capture and resolve the calling thread's
/// stack; what it holds depends on the running program, so nothing is promised of it.
pub assume_specification[ Backtrace::new ]() -> Backtrace;

/// Relies on backtrace::Backtrace::frames for the captured frames, from the top of
/// the stack down. The frames of `Backtrace::new` and of what it called are left out
/// in capture, so the first frame is the function that called `Backtrace::new`.
pub assume_specification[ Backtrace::frames ](bt: &Backtrace) -> &[BacktraceFrame];

/// Relies on backtrace::BacktraceFrame::symbols for the symbols of a frame, innermost
/// first and least inlined last.
pub assume_specification[ BacktraceFrame::symbols ](frame: &BacktraceFrame) -> &[BacktraceSymbol];

/// Relies on backtrace::BacktraceSymbol::lineno for the line of a symbol, if recorded.
pub assume_specification[ BacktraceSymbol::lineno ](symbol: &BacktraceSymbol) -> Option<u32>;

/// Relies on backtrace::BacktraceSymbol::name, and the `Display` of its `SymbolName`,
/// for the demangled name of a symbol, if recorded.
#[verifier::external_body]
fn symbol_name(symbol: &BacktraceSymbol) -> Option<String> {
    symbol.name().map(|n| n.to_string())
}

/// Relies on backtrace::BacktraceSymbol::filename for the source file of a symbol, if
/// recorded, read lossily as text.
#[verifier::external_body]
fn symbol_file(symbol: &BacktraceSymbol) -> Option<String> {
    symbol.filename().map(|p| p.to_string_lossy().into_owned())
}

/// What the stack records of one symbol of a frame; each part may be missing
/// where debug information was stripped.
pub struct SymbolRecord {
    pub name: Option<String>,
    pub file: Option<String>,
    pub line: Option<u32>,
}

/// The place a failure was observed from; each part is absent where the stack
/// did not record it.
pub struct CallSite {
    pub function: Option<String>,
    pub file: Option<String>,
    pub line: Option<u32>,
}

/// The view of an optional string.
pub open spec fn opt_view(o: Option<String>) -> Option<Seq<char>> {
    match o {
        Some(s) => Some(s@),
        None => None,
    }
}

/// The call site that a frame with the symbols `symbols` gives: nothing where it has
/// none, else the last (least inlined) symbol's parts, its name reduced to the function path.
pub open spec fn site_of_frame(symbols: Seq<SymbolRecord>, site: CallSite) -> bool {
    if symbols.len() == 0 {
        site.function is None && site.file is None && site.line is None
    } else {
        let last = symbols.last();
        &&& opt_view(site.function) == match last.name {
            Some(n) => Some(reduced(n@)),
            None => None::<Seq<char>>,
        }
        &&& opt_view(site.file) == opt_view(last.file)
        &&& site.line == last.line
    }
}

fn copy_text(o: &Option<String>) -> (r: Option<String>)
    ensures
        opt_view(r) == opt_view(*o),
{
    match o {
        Some(s) => Some(s.clone()),
        None => None,
    }
}

impl CallSite {
    /// A call site with every part absent.
    pub fn absent() -> (r: CallSite)
        ensures
            r.function is None && r.file is None && r.line is None,
    {
        CallSite { function: None, file: None, line: None }
    }
}

/// The call site of the frame at `offset` of `stack` (frames listed from the top of
/// the stack down); every part is absent where there is no such frame.
pub fn call_site_at(stack: &Vec<Vec<SymbolRecord>>, offset: usize) -> (r: CallSite)
    ensures
        offset >= stack@.len() ==> r.function is None && r.file is None && r.line is None,
        offset < stack@.len() ==> site_of_frame(stack@[offset as int]@, r),
{
    if offset >= stack.len() {
        return CallSite::absent();
    }
    let symbols = &stack[offset];
    if symbols.len() == 0 {
        return CallSite::absent();
    }
    let last = &symbols[symbols.len() - 1];
    let function = match &last.name {
        Some(n) => Some(reduce(n.as_str())),
        None => None,
    };
    CallSite { function, file: copy_text(&last.file), line: last.line }
}

/// The records of the symbols of one frame, in the frame's order.
fn frame_records(frame: &BacktraceFrame) -> (r: Vec<SymbolRecord>) {
    let symbols = frame.symbols();
    let mut records: Vec<SymbolRecord> = Vec::new();
    for i in 0..symbols.len() {
        let symbol = &symbols[i];
        records.push(SymbolRecord {
            name: symbol_name(symbol),
            file: symbol_file(symbol),
            line: symbol.lineno(),
        });
    }
    records
}

/// Captures the calling thread's stack and gives the call site of the frame at
/// `offset`, counted from this function's own frame (0) outwards. Every part is
/// absent where the stack has no such frame or the frame carries no symbol. What the
/// stack holds depends on the running program: beyond that, nothing is promised of it.
#[inline(never)]
pub fn resolve_call_site(offset: usize) -> (r: CallSite)
    ensures
        offset == usize::MAX ==> r.function is None && r.file is None && r.line is None,
{
    let trace = Backtrace::new();
    let frames = trace.frames();
    let mut stack: Vec<Vec<SymbolRecord>> = Vec::new();
    for i in 0..frames.len()
        invariant
            stack@.len() == i,
    {
        stack.push(frame_records(&frames[i]));
    }
    call_site_at(&stack, offset)
}

} // verus!

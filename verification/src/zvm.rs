//! One running guest script and its fault boundary.
//!
//! The guest-language engine (lexer, parser, interpreter) is an outside
//! collaborator: the host runs it and reports what happened as a
//! [`StartOutcome`] or [`FrameOutcome`] value.  Everything the harness
//! decides about those outcomes is here: which diagnostic each failure
//! becomes, that a failed start never yields an instance, and that a
//! faulted frame leaves the instance usable.

use crate::consolebuiltins::ZColor;
use crate::diagnostics::{errfmt, spec_report, Diagnostic, FaultKind};
use vstd::prelude::*;

verus! {

/// One deferred drawing command, recorded by a bridge call in the order the
/// guest issued it and replayed by the renderer after the frame.
#[derive(Debug)]
pub enum ZEvent {
    GSet { x: i64, y: i64, color: ZColor },
    Rect { x: i64, y: i64, w: i64, h: i64, color: ZColor },
    Sprite { x: i64, y: i64, sprite: usize },
    Put(String),
}

/// The shared render state of one running session: the ordered command
/// buffer the bridge appends to, and the input snapshot the scripts read.
#[derive(Debug)]
pub struct ZVMState {
    pub buffer: Vec<ZEvent>,
    pub keys: Vec<String>,
}

impl ZVMState {
    /// A fresh state: no commands, no pressed inputs.
    pub fn new() -> (s: ZVMState)
        ensures
            s.buffer@ == Seq::<ZEvent>::empty(),
            s.keys@ == Seq::<String>::empty(),
    {
        ZVMState { buffer: Vec::new(), keys: Vec::new() }
    }

    /// Replaces (never merges) the input snapshot; the command buffer is
    /// untouched.
    pub fn set_keys(&mut self, keys: Vec<String>)
        ensures
            final(self).keys == keys,
            final(self).buffer == old(self).buffer,
    {
        self.keys = keys;
    }

    /// Discards every recorded command; the input snapshot is untouched.
    /// Commands recorded outside any frame (module init runs before the
    /// first tick) are discarded this way.
    pub fn clear_buffer(&mut self)
        ensures
            final(self).buffer@ == Seq::<ZEvent>::empty(),
            final(self).keys == old(self).keys,
    {
        self.buffer.clear();
    }

    /// Hands out the frame's commands in the order they were recorded and
    /// empties the buffer; the input snapshot is untouched.
    pub fn drain(&mut self) -> (r: Vec<ZEvent>)
        ensures
            r == old(self).buffer,
            final(self).buffer@ == Seq::<ZEvent>::empty(),
            final(self).keys == old(self).keys,
    {
        let mut drained: Vec<ZEvent> = Vec::new();
        core::mem::swap(&mut self.buffer, &mut drained);
        drained
    }
}

/// What the engine reported for one attempt to start a script: lexing,
/// parsing and the one run of the module-level statements.
#[derive(Debug)]
pub enum StartOutcome {
    /// Parsing and module init succeeded; `functions` names the entries of
    /// the merged function table.
    Ready { functions: Vec<String> },
    /// The source failed to lex or parse.
    ParseFailed { offset: usize, message: String },
    /// Module init raised a guest exception of the engine's `errtype`.
    InitRaised { offset: usize, errtype: String, message: String },
    /// A host-level fault (an engine panic) was caught at the boundary.
    Panicked { message: String },
}

/// What the engine reported for one frame's `draw` call.
#[derive(Debug)]
pub enum FrameOutcome {
    /// The function table has no `draw` entry; nothing was invoked.
    Skipped,
    /// `draw` ran to completion.
    Completed,
    /// `draw` raised a guest exception of the engine's `errtype`.
    Raised { offset: usize, errtype: String, message: String },
    /// A host-level fault (an engine panic) was caught at the boundary.
    Panicked { message: String },
}

/// How a guest exception's engine-side type string is classified: the
/// bridge's type faults keep their category, everything else a guest
/// raises is a runtime exception.
pub open spec fn spec_classify(errtype: Seq<char>) -> FaultKind {
    if errtype == "TypeError"@ {
        FaultKind::TypeError
    } else {
        FaultKind::RuntimeException
    }
}

pub fn classify_errtype(errtype: &str) -> (k: FaultKind)
    ensures
        k == spec_classify(errtype@),
{
    let given = String::from_str(errtype);
    let typefault = String::from_str("TypeError");
    if given == typefault {
        FaultKind::TypeError
    } else {
        FaultKind::RuntimeException
    }
}

/// Whether a function table holds an entry point named `draw`.
pub open spec fn table_has_draw(fns: Seq<String>) -> bool {
    exists|i: int| 0 <= i < fns.len() && fns[i]@ == "draw"@
}

/// One running guest script: its raw source (kept for diagnostics) and the
/// names of the entries of its merged function table.
///
/// A `ZVM` exists only for a script whose start succeeded, and stays usable
/// across faulted frames; it is dropped on session teardown.  That is the
/// whole lifecycle: uninitialized before [`ZVM::start`] returns, faulted
/// (terminally, with no instance) when `start` reports a diagnostic,
/// running from a successful `start` until the session stops.
#[derive(Debug)]
pub struct ZVM {
    pub contents: String,
    pub functions: Vec<String>,
}

/// The function-table entries of a ready start outcome.
pub open spec fn outcome_functions(outcome: StartOutcome) -> Vec<String>
    recommends
        outcome is Ready,
{
    match outcome {
        StartOutcome::Ready { functions } => functions,
        _ => vstd::pervasive::arbitrary(),
    }
}

/// The diagnostic a failed start outcome becomes: a parse fault keeps its
/// position, a module-init exception is classified by its engine type, and
/// a caught panic becomes an internal fault reported at the start of the
/// source.
pub open spec fn start_fault_diag(outcome: StartOutcome) -> Diagnostic
    recommends
        !(outcome is Ready),
{
    match outcome {
        StartOutcome::Ready { .. } => vstd::pervasive::arbitrary(),
        StartOutcome::ParseFailed { offset, message } => Diagnostic {
            offset,
            kind: FaultKind::ParseError,
            message,
        },
        StartOutcome::InitRaised { offset, errtype, message } => Diagnostic {
            offset,
            kind: spec_classify(errtype@),
            message,
        },
        StartOutcome::Panicked { message } => Diagnostic {
            offset: 0,
            kind: FaultKind::InternalFault,
            message,
        },
    }
}

/// What [`ZVM::start`] returns for each outcome: a running instance
/// carrying the source and the function table exactly when the engine
/// reported success, and otherwise the one diagnostic of the failure.
pub open spec fn start_matches(
    contents: String,
    outcome: StartOutcome,
    r: Result<ZVM, Diagnostic>,
) -> bool {
    match outcome {
        StartOutcome::Ready { functions } => r == Result::<ZVM, Diagnostic>::Ok(
            ZVM { contents, functions },
        ),
        _ => r == Result::<ZVM, Diagnostic>::Err(start_fault_diag(outcome)),
    }
}

/// The diagnostic a failed frame outcome becomes, classified as at start.
pub open spec fn frame_fault_diag(outcome: FrameOutcome) -> Diagnostic
    recommends
        outcome is Raised || outcome is Panicked,
{
    match outcome {
        FrameOutcome::Raised { offset, errtype, message } => Diagnostic {
            offset,
            kind: spec_classify(errtype@),
            message,
        },
        FrameOutcome::Panicked { message } => Diagnostic {
            offset: 0,
            kind: FaultKind::InternalFault,
            message,
        },
        _ => vstd::pervasive::arbitrary(),
    }
}

/// What [`ZVM::draw`] returns for each outcome: success for a skipped or
/// completed frame, and otherwise the one diagnostic of the failure.
pub open spec fn frame_matches(outcome: FrameOutcome, r: Result<(), Diagnostic>) -> bool {
    match outcome {
        FrameOutcome::Skipped => r is Ok,
        FrameOutcome::Completed => r is Ok,
        _ => r == Result::<(), Diagnostic>::Err(frame_fault_diag(outcome)),
    }
}

impl ZVM {
    pub open spec fn spec_has_draw(&self) -> bool {
        table_has_draw(self.functions@)
    }

    /// Whether the script's function table holds a `draw` entry point.
    pub fn has_draw(&self) -> (r: bool)
        ensures
            r == self.spec_has_draw(),
    {
        let target = String::from_str("draw");
        let mut i: usize = 0;
        let mut found = false;
        while i < self.functions.len()
            invariant
                i <= self.functions@.len(),
                target@ == "draw"@,
                found <==> (exists|j: int|
                    0 <= j < i && self.functions@[j]@ == "draw"@),
            decreases self.functions@.len() - i,
        {
            if self.functions[i].eq(&target) {
                found = true;
            }
            i = i + 1;
        }
        found
    }

    /// Turns the engine's report of one start attempt into either the
    /// running instance or the failure's diagnostic.  However the guest
    /// failed, the result is a value, never a host crash.
    pub fn start(contents: String, outcome: StartOutcome) -> (r: Result<ZVM, Diagnostic>)
        ensures
            start_matches(contents, outcome, r),
    {
        match outcome {
            StartOutcome::Ready { functions } => Ok(ZVM { contents, functions }),
            StartOutcome::ParseFailed { offset, message } => Err(
                Diagnostic { offset, kind: FaultKind::ParseError, message },
            ),
            StartOutcome::InitRaised { offset, errtype, message } => Err(
                Diagnostic { offset, kind: classify_errtype(errtype.as_str()), message },
            ),
            StartOutcome::Panicked { message } => Err(
                Diagnostic { offset: 0, kind: FaultKind::InternalFault, message },
            ),
        }
    }

    /// Turns the engine's report of one frame into the frame's result.  A
    /// failure is reported, not fatal: the instance is untouched (`&self`)
    /// and remains usable on the next frame.  A missing `draw` entry point
    /// is a silent no-op, never an error.
    pub fn draw(&self, outcome: FrameOutcome) -> (r: Result<(), Diagnostic>)
        requires
            (outcome is Skipped) <==> !self.spec_has_draw(),
        ensures
            frame_matches(outcome, r),
    {
        match outcome {
            FrameOutcome::Skipped => Ok(()),
            FrameOutcome::Completed => Ok(()),
            FrameOutcome::Raised { offset, errtype, message } => Err(
                Diagnostic { offset, kind: classify_errtype(errtype.as_str()), message },
            ),
            FrameOutcome::Panicked { message } => Err(
                Diagnostic { offset: 0, kind: FaultKind::InternalFault, message },
            ),
        }
    }

    /// Renders a diagnostic against this script's own source text.
    pub fn fmt(&self, exception: &Diagnostic) -> (r: String)
        requires
            exception.offset <= self.contents@.len(),
            self.contents@.len() < usize::MAX,
        ensures
            r@ == spec_report(
                self.contents@,
                exception.offset as int,
                exception.kind,
                exception.message@,
            ),
    {
        errfmt(exception, &self.contents)
    }
}

/// A syntactically valid script with no entry point named `draw` starts
/// into a running instance that skips every frame, and a skipped frame is
/// a success.
pub proof fn lemma_start_without_draw(
    contents: String,
    outcome: StartOutcome,
    r: Result<ZVM, Diagnostic>,
)
    requires
        start_matches(contents, outcome, r),
        outcome matches StartOutcome::Ready { functions } && !table_has_draw(functions@),
    ensures
        r matches Ok(vm) && !vm.spec_has_draw(),
        frame_matches(FrameOutcome::Skipped, Result::<(), Diagnostic>::Ok(())),
{
}

/// A script whose start fails — a parse error, a module-init exception or
/// a caught host fault — never yields a running instance: the start result
/// is the failure's diagnostic and nothing else.
pub proof fn lemma_failed_start_never_runs(
    contents: String,
    outcome: StartOutcome,
    r: Result<ZVM, Diagnostic>,
)
    requires
        start_matches(contents, outcome, r),
        !(outcome is Ready),
    ensures
        r is Err,
{
}

/// A fault in one frame does not persist: a raised frame reports its
/// diagnostic while the instance stays as it is, and a later completed
/// frame of the same instance reports success.
pub proof fn lemma_fault_does_not_persist(
    r1: Result<(), Diagnostic>,
    r2: Result<(), Diagnostic>,
    offset: usize,
    errtype: String,
    message: String,
)
    requires
        frame_matches(FrameOutcome::Raised { offset, errtype, message }, r1),
        frame_matches(FrameOutcome::Completed, r2),
    ensures
        r1 is Err,
        r2 is Ok,
{
}

} // verus!

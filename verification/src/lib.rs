//! Script-execution harness for a small fantasy console.
//!
//! Guest-authored scripts run inside a host-controlled sandbox: a fixed
//! bridge of drawing and input primitives is exposed to the guest language,
//! the commands a script issues are collected into an ordered buffer, and
//! every guest-side failure is turned into a positional diagnostic instead
//! of a host crash.  The guest-language engine itself (lexer, parser,
//! interpreter) is an outside collaborator: the library receives the
//! outcome of each engine step as a value and decides everything else.

pub mod cart;
pub mod consolebuiltins;
pub mod diagnostics;
pub mod editor;
pub mod gamewindow;
pub mod grid;
pub mod zvm;

pub use diagnostics::{Diagnostic, FaultKind};

//! Per-document diagnostics, as language servers and linters report them.

use vstd::prelude::*;

verus! {

/// How serious a diagnostic is.
#[derive(Debug, Clone, Copy, PartialEq, Eq, Structural)]
pub enum DiagnosticSeverity {
    Error,
    Warning,
    Information,
    Hint,
}

/// One diagnostic of a document.
#[derive(Debug, Clone)]
pub struct DiagnosticEntry {
    pub line: u32,
    pub col_start: u32,
    pub col_end: u32,
    pub severity: DiagnosticSeverity,
    pub message: String,
    pub source: Option<String>,
}

} // verus!

//! Diagnostic records: `(code, range, message)` triples produced by
//! the checkers and consumed by the editor-feature layer.

use vstd::prelude::*;

verus! {

/// A half-open character range in a source file.
#[derive(Clone, Copy, PartialEq, Eq, Structural, Debug)]
pub struct TextRange {
    pub start: u32,
    pub end: u32,
}

/// The diagnostic rules the core can report against.
#[derive(Clone, Copy, PartialEq, Eq, Structural, Debug)]
pub enum DiagnosticCode {
    /// Assignment to a declaration carrying the read-only feature.
    ReadOnly,
    /// A value assigned against its declared type.
    AssignTypeMismatch,
    /// An attribute use whose owner could not be resolved.
    OrphanAttribute,
}

/// Severity of a diagnostic, mirroring editor-protocol levels.
#[derive(Clone, Copy, PartialEq, Eq, Structural, Debug)]
pub enum DiagnosticSeverity {
    Error,
    Warning,
    Information,
    Hint,
}

/// One reported diagnostic.
pub struct Diagnostic {
    pub code: DiagnosticCode,
    pub range: TextRange,
    pub message: String,
    pub severity: DiagnosticSeverity,
}

impl Diagnostic {
    pub fn new(
        code: DiagnosticCode,
        range: TextRange,
        message: String,
        severity: DiagnosticSeverity,
    ) -> (r: Diagnostic)
        ensures
            r.code == code,
            r.range == range,
            r.message == message,
            r.severity == severity,
    {
        Diagnostic { code, range, message, severity }
    }
}

} // verus!

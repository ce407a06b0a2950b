//! Diagnostics reported by the editor's subsystems.
use vstd::prelude::*;

verus! {

#[derive(Debug, Clone, Copy, PartialEq, Eq, Structural)]
pub enum Severity {
    Info,
    Warning,
    Error,
}

/// The subsystem, and optionally the place in it, that reported a diagnostic.
#[derive(Debug, Clone, PartialEq, Eq)]
pub struct DiagnosticSource {
    pub subsystem: String,
    pub location: Option<String>,
}

impl DiagnosticSource {
    pub fn new(subsystem: &str) -> (r: Self)
        ensures
            r.subsystem@ == subsystem@,
            r.location is None,
    {
        DiagnosticSource { subsystem: subsystem.to_owned(), location: None }
    }

    pub fn with_location(self, location: &str) -> (r: Self)
        ensures
            r.subsystem@ == self.subsystem@,
            r.location matches Some(l) && l@ == location@,
    {
        DiagnosticSource { subsystem: self.subsystem, location: Some(location.to_owned()) }
    }
}

#[derive(Debug, Clone, PartialEq, Eq)]
pub struct Diagnostic {
    pub severity: Severity,
    pub source: DiagnosticSource,
    pub message: String,
}

impl Diagnostic {
    pub fn info(source: DiagnosticSource, message: &str) -> (r: Self)
        ensures
            r.severity == Severity::Info,
            r.source == source,
            r.message@ == message@,
    {
        Diagnostic { severity: Severity::Info, source, message: message.to_owned() }
    }

    pub fn warning(source: DiagnosticSource, message: &str) -> (r: Self)
        ensures
            r.severity == Severity::Warning,
            r.source == source,
            r.message@ == message@,
    {
        Diagnostic { severity: Severity::Warning, source, message: message.to_owned() }
    }

    pub fn error(source: DiagnosticSource, message: &str) -> (r: Self)
        ensures
            r.severity == Severity::Error,
            r.source == source,
            r.message@ == message@,
    {
        Diagnostic { severity: Severity::Error, source, message: message.to_owned() }
    }
}

} // verus!

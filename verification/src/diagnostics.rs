//! The diagnostic callback's forwarding rule and its append-only sink.
//!
//! The callback registered on a debug-mode context receives (severity,
//! category, message) tuples. It forwards every message, regardless of
//! severity, with the raw message text kept verbatim, appending to a sink
//! that only ever grows. The callback may be invoked re-entrantly from
//! within driver calls, so the sink's one operation is a single append
//! with no other shared state.

use vstd::prelude::*;

verus! {

/// How severe the driver judged a diagnostic message.
#[derive(Clone, Copy, PartialEq, Eq, Structural, Debug)]
pub enum DiagnosticSeverity {
    Verbose,
    Info,
    Warning,
    Error,
}

/// What part of the system a diagnostic message is about.
#[derive(Clone, Copy, PartialEq, Eq, Structural, Debug)]
pub enum DiagnosticCategory {
    General,
    Validation,
    Performance,
}

/// One forwarded diagnostic: severity, category, and the raw message text.
pub struct DiagnosticRecord {
    pub severity: DiagnosticSeverity,
    pub category: DiagnosticCategory,
    pub message: String,
}

/// An append-only sink of diagnostic records.
pub struct DiagnosticSink {
    pub records: Vec<DiagnosticRecord>,
}

impl DiagnosticSink {
    /// An empty sink.
    pub fn new() -> (s: Self)
        ensures
            s.records@.len() == 0,
    {
        DiagnosticSink { records: Vec::new() }
    }

    /// Forwards one callback invocation: every message is appended, no
    /// severity is filtered, and the record keeps the message verbatim.
    /// The sink only grows — everything already recorded stays in place.
    pub fn forward(
        &mut self,
        severity: DiagnosticSeverity,
        category: DiagnosticCategory,
        message: String,
    )
        ensures
            final(self).records@ == old(self).records@.push(
                DiagnosticRecord { severity, category, message },
            ),
    {
        self.records.push(DiagnosticRecord { severity, category, message });
    }
}

} // verus!

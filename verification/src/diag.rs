//! Error conditions that the rewrite reports to the diagnostics sink.
//!
//! Both kinds are recoverable at the call site: the declaration is handed
//! back unmodified beside the diagnostic, never partially rewritten.

use vstd::prelude::*;

verus! {

/// The two recoverable error conditions.
#[derive(Clone, Copy, PartialEq, Eq, Debug)]
pub enum ErrorKind {
    /// Metadata whose name or value does not form a contract.
    MalformedContract,
    /// A contract attached to a declaration shape without a rewritable body.
    UnsupportedTarget,
}

/// A reported error condition: its kind and a human-readable message.
/// Formatting and display belong to the host's diagnostics sink.
#[derive(PartialEq, Eq, Debug)]
pub struct Diagnostic {
    pub kind: ErrorKind,
    pub message: Vec<char>,
}

/// The mathematical content of a diagnostic.
pub struct DiagnosticV {
    pub kind: ErrorKind,
    pub message: Seq<char>,
}

impl View for Diagnostic {
    type V = DiagnosticV;

    open spec fn view(&self) -> DiagnosticV {
        DiagnosticV { kind: self.kind, message: self.message@ }
    }
}

pub open spec fn view_opt_diag(d: Option<Diagnostic>) -> Option<DiagnosticV> {
    match d {
        Option::Some(d) => Option::Some(d@),
        Option::None => Option::None,
    }
}

} // verus!

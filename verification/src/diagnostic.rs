use vstd::prelude::*;

verus! {

/// Where in the source a report points.
#[derive(Clone, Copy, Debug, PartialEq, Eq, Structural)]
pub enum Location {
    /// The place where the derive was invoked.
    CallSite,
    /// A place in the declaration's text, under the number by which the
    /// caller keeps it.
    Source(usize),
}

/// A located, human-readable error report.
#[derive(Debug, PartialEq, Eq)]
pub struct Diagnostic {
    pub location: Location,
    pub message: String,
}

/// A report as a mathematical value.
pub struct DiagnosticView {
    pub location: Location,
    pub message: Seq<char>,
}

impl View for Diagnostic {
    type V = DiagnosticView;

    open spec fn view(&self) -> DiagnosticView {
        DiagnosticView { location: self.location, message: self.message@ }
    }
}

impl Diagnostic {
    /// A report at `location` with the given text.
    pub fn error(location: Location, message: String) -> (report: Diagnostic)
        ensures
            report@ == (DiagnosticView { location, message: message@ }),
    {
        Diagnostic { location, message }
    }
}

} // verus!

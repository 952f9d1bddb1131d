//! Diagnostics and the fixes that may come with them.

use vstd::prelude::*;

verus! {

/// How serious a finding is.
#[derive(Debug, Clone, Copy, PartialEq, Eq, Structural)]
pub enum Severity {
    Error,
    Warning,
    Advice,
}

/// A place in a document: a line and a character offset in it, both from 0.
#[derive(Debug, Clone, Copy, PartialEq, Eq, Structural)]
pub struct Position {
    pub line: u32,
    pub character: u32,
}

/// A stretch of a document, from `start` up to `end`.
#[derive(Debug, Clone, Copy, PartialEq, Eq, Structural)]
pub struct Range {
    pub start: Position,
    pub end: Position,
}

/// One reported finding. A finding without a severity counts as an error.
#[derive(Debug, PartialEq, Eq)]
pub struct Diagnostic {
    pub severity: Option<Severity>,
    pub message: String,
    pub range: Range,
}

/// A textual edit that resolves a finding: `code` replaces `range`.
#[derive(Debug, PartialEq, Eq)]
pub struct FixedContent {
    pub code: String,
    pub range: Range,
}

/// A finding together with its fix, where it has one: the unit that a
/// session stores for each document.
#[derive(Debug, PartialEq, Eq)]
pub struct DiagnosticReport {
    pub diagnostic: Diagnostic,
    pub fixed_content: Option<FixedContent>,
}

/// What a [`Diagnostic`] is: its fields, with the message as characters.
pub ghost struct DiagnosticView {
    pub severity: Option<Severity>,
    pub message: Seq<char>,
    pub range: Range,
}

/// What a [`FixedContent`] is.
pub ghost struct FixedContentView {
    pub code: Seq<char>,
    pub range: Range,
}

/// What a [`DiagnosticReport`] is.
pub ghost struct ReportView {
    pub diagnostic: DiagnosticView,
    pub fixed_content: Option<FixedContentView>,
}

impl DiagnosticView {
    /// A finding counts as a warning when its severity says so.
    pub open spec fn is_warning(self) -> bool {
        self.severity == Some(Severity::Warning)
    }

    /// A finding counts as an error when its severity says so, or when it
    /// has none.
    pub open spec fn is_error(self) -> bool {
        self.severity is None || self.severity == Some(Severity::Error)
    }
}

impl View for Diagnostic {
    type V = DiagnosticView;

    open spec fn view(&self) -> DiagnosticView {
        DiagnosticView { severity: self.severity, message: self.message@, range: self.range }
    }
}

impl View for FixedContent {
    type V = FixedContentView;

    open spec fn view(&self) -> FixedContentView {
        FixedContentView { code: self.code@, range: self.range }
    }
}

impl View for DiagnosticReport {
    type V = ReportView;

    open spec fn view(&self) -> ReportView {
        ReportView {
            diagnostic: self.diagnostic@,
            fixed_content: match self.fixed_content {
                Some(fix) => Some(fix@),
                None => None,
            },
        }
    }
}

/// The views of a list of diagnostics, in order.
pub open spec fn diagnostics_view(diagnostics: Seq<Diagnostic>) -> Seq<DiagnosticView> {
    diagnostics.map_values(|d: Diagnostic| d@)
}

/// The views of a list of reports, in order.
pub open spec fn reports_view(reports: Seq<DiagnosticReport>) -> Seq<ReportView> {
    reports.map_values(|r: DiagnosticReport| r@)
}

/// The findings of a list of reports, in order, without their fixes.
pub open spec fn report_diagnostics(reports: Seq<ReportView>) -> Seq<DiagnosticView> {
    reports.map_values(|r: ReportView| r.diagnostic)
}

impl Clone for Diagnostic {
    fn clone(&self) -> (copy: Diagnostic)
        ensures
            copy@ == self@,
    {
        Diagnostic { severity: self.severity, message: self.message.clone(), range: self.range }
    }
}

impl Clone for FixedContent {
    fn clone(&self) -> (copy: FixedContent)
        ensures
            copy@ == self@,
    {
        FixedContent { code: self.code.clone(), range: self.range }
    }
}

impl Clone for DiagnosticReport {
    fn clone(&self) -> (copy: DiagnosticReport)
        ensures
            copy@ == self@,
    {
        let fixed_content = match &self.fixed_content {
            Some(fix) => Some(fix.clone()),
            None => None,
        };
        DiagnosticReport { diagnostic: self.diagnostic.clone(), fixed_content }
    }
}

impl Diagnostic {
    /// Whether the finding counts as a warning.
    pub fn is_warning(&self) -> (r: bool)
        ensures
            r == self@.is_warning(),
    {
        match self.severity {
            Some(Severity::Warning) => true,
            _ => false,
        }
    }

    /// Whether the finding counts as an error.
    pub fn is_error(&self) -> (r: bool)
        ensures
            r == self@.is_error(),
    {
        match self.severity {
            None => true,
            Some(Severity::Error) => true,
            _ => false,
        }
    }
}

/// Copies the findings out of a list of reports, in order.
pub fn diagnostics_of(reports: &Vec<DiagnosticReport>) -> (diagnostics: Vec<Diagnostic>)
    ensures
        diagnostics_view(diagnostics@) == report_diagnostics(reports_view(reports@)),
{
    let mut diagnostics: Vec<Diagnostic> = Vec::new();
    let mut i: usize = 0;
    while i < reports.len()
        invariant
            i <= reports.len(),
            diagnostics.len() == i,
            forall|j: int| 0 <= j < i ==> diagnostics@[j]@ == reports@[j]@.diagnostic,
        decreases reports.len() - i,
    {
        diagnostics.push(reports[i].diagnostic.clone());
        i += 1;
    }
    diagnostics
}

} // verus!

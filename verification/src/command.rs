//! The options of a batch run, and what a run ends with.

use std::time::Duration;
use vstd::prelude::*;

verus! {

/// What a rule filter does with the rules it names.
#[derive(Debug, Clone, Copy, PartialEq, Eq, Structural)]
pub enum AllowWarnDeny {
    Allow,
    Warn,
    Deny,
}

/// How warnings are treated.
#[derive(Debug, Clone, Copy, PartialEq, Eq, Structural)]
pub struct WarningOptions {
    /// Count warnings, but do not show them.
    pub quiet: bool,
    /// Let a run with warnings end in failure.
    pub deny_warnings: bool,
    /// The number of warnings above which the run ends in failure.
    pub max_warnings: Option<usize>,
}

/// Which files the discovery leaves out.
#[derive(Debug, Clone, PartialEq, Eq)]
pub struct IgnoreOptions {
    pub ignore_path: String,
    pub ignore_pattern: Vec<String>,
    pub no_ignore: bool,
}

/// Whether fixes are applied.
#[derive(Debug, Clone, Copy, PartialEq, Eq, Structural)]
pub struct FixOptions {
    pub fix: bool,
}

/// Options beside the linting itself.
#[derive(Debug, Clone, Copy, PartialEq, Eq, Structural)]
pub struct MiscOptions {
    /// Measure how long each rule takes.
    pub timing: bool,
    /// List the rules and do nothing else.
    pub rules: bool,
}

/// The restriction of a run to the files of some owners.
#[derive(Debug, Clone, PartialEq, Eq)]
pub struct CodeownerOptions {
    /// The ownership file to go by.
    pub codeowners_file: Option<String>,
    /// The owners whose files are wanted.
    pub codeowners: Vec<String>,
}

/// The plugins switched on from the command line.
#[derive(Debug, Clone, Copy, PartialEq, Eq, Structural)]
pub struct EnablePlugins {
    pub import_plugin: bool,
    pub jest_plugin: bool,
    pub jsx_a11y_plugin: bool,
}

/// All options of a batch run.
#[derive(Debug, Clone, PartialEq, Eq)]
pub struct CliLintOptions {
    pub paths: Vec<String>,
    pub filter: Vec<(AllowWarnDeny, String)>,
    pub warning_options: WarningOptions,
    pub ignore_options: IgnoreOptions,
    pub fix_options: FixOptions,
    pub misc_options: MiscOptions,
    pub codeowner_options: CodeownerOptions,
    pub enable_plugins: EnablePlugins,
    pub config: Option<String>,
}

/// The summary of a run that linted.
#[derive(Debug, Clone, Copy, PartialEq, Eq)]
pub struct LintResult {
    pub duration: Duration,
    pub number_of_rules: usize,
    pub number_of_files: usize,
    pub number_of_warnings: usize,
    pub number_of_errors: usize,
    pub max_warnings_exceeded: bool,
    pub deny_warnings: bool,
}

/// What a batch run ends with.
#[derive(Debug, Clone, PartialEq, Eq)]
pub enum CliRunResult {
    /// Nothing to report.
    Nothing,
    /// The options cannot be served; nothing was linted.
    InvalidOptions { message: String },
    /// The run linted; this is its summary.
    LintResult(LintResult),
}

/// What a [`CliRunResult`] is.
pub ghost enum CliRunResultView {
    Nothing,
    InvalidOptions { message: Seq<char> },
    LintResult(LintResult),
}

impl View for CliRunResult {
    type V = CliRunResultView;

    open spec fn view(&self) -> CliRunResultView {
        match self {
            CliRunResult::Nothing => CliRunResultView::Nothing,
            CliRunResult::InvalidOptions { message } => CliRunResultView::InvalidOptions {
                message: message@,
            },
            CliRunResult::LintResult(result) => CliRunResultView::LintResult(*result),
        }
    }
}

impl LintResult {
    /// Whether the run ends in failure: the threshold of warnings was
    /// exceeded, an error was found, or a warning was found and warnings are
    /// denied.
    pub open spec fn spec_failed(self) -> bool {
        self.max_warnings_exceeded || self.number_of_errors > 0 || (self.number_of_warnings > 0
            && self.deny_warnings)
    }

    #[verifier::when_used_as_spec(spec_failed)]
    pub fn failed(self) -> (failed: bool)
        ensures
            failed == self.spec_failed(),
    {
        self.max_warnings_exceeded || self.number_of_errors > 0 || (self.number_of_warnings > 0
            && self.deny_warnings)
    }
}

impl CliRunResultView {
    /// The exit status of the process: 0 for success, 1 for failure.
    pub open spec fn exit_code(self) -> u8 {
        match self {
            CliRunResultView::Nothing => 0,
            CliRunResultView::InvalidOptions { .. } => 1,
            CliRunResultView::LintResult(result) => if result.spec_failed() {
                1
            } else {
                0
            },
        }
    }
}

impl CliRunResult {
    /// The result for options that cannot be served.
    pub fn invalid(message: &str) -> (result: CliRunResult)
        ensures
            result@ == (CliRunResultView::InvalidOptions { message: message@ }),
    {
        CliRunResult::InvalidOptions { message: String::from_str(message) }
    }

    /// The exit status of the process: 0 for success, 1 for failure.
    pub fn exit_code(&self) -> (code: u8)
        ensures
            code == self@.exit_code(),
    {
        match self {
            CliRunResult::Nothing => 0,
            CliRunResult::InvalidOptions { .. } => 1,
            CliRunResult::LintResult(result) => if result.failed() {
                1
            } else {
                0
            },
        }
    }
}

} // verus!

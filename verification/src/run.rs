//! One batch run as a sequence of steps. The runner decides; whoever drives
//! it does the outside work that a step asks for and reports back what came
//! of it.

use crate::aggregate::{AggregatorView, DiagnosticAggregator, FileUnit, render_mask};
use crate::command::{CliLintOptions, CliRunResult, CliRunResultView, LintResult};
use crate::lint::{
    spec_apply_codeowners_file, spec_check_options, LintRunner, Ownership,
};
use crate::report::diagnostics_view;
use crate::text::{clone_strings, strings_view};
use std::time::Duration;
use vstd::prelude::*;

verus! {

/// Why a run without paths ends when the working directory is not to be had.
pub const NO_WORKING_DIRECTORY: &'static str = "Failed to get current working directory.";

/// Why a run ends when the rule engine could not be built.
pub const CONFIGURATION_UNPARSABLE: &'static str = "Failed to parse configuration file.";

/// What a run waits for.
#[derive(Debug, Clone, Copy, PartialEq, Eq, Structural)]
pub enum RunStage {
    /// For the list of rules to be printed.
    Rules,
    /// For the working directory, as no path was given.
    WorkingDirectory,
    /// For the files found under the paths.
    Discovery,
    /// For what the ownership file names for the files.
    Ownership,
    /// For the rule engine to be built.
    Engine,
    /// For the findings of the files, until the channel is closed.
    Draining,
    /// For nothing: the run is over.
    Done,
}

/// What the driver of a run is to do next.
#[derive(Debug, PartialEq, Eq)]
pub enum RunAction {
    /// Print the list of rules, then report that it is printed.
    PrintRules,
    /// Ask for the working directory and report it.
    QueryWorkingDirectory,
    /// Find the files under `paths` and report them.
    Discover { paths: Vec<String> },
    /// Read the ownership file and report, for each file found, the owners
    /// it names.
    LoadOwnership { file: String },
    /// Build the rule engine from the options and report its number of
    /// rules, or that it could not be built.
    BuildEngine,
    /// Lint `paths` on the workers; report the findings of each file as they
    /// come, and then that the channel is closed.
    Lint { paths: Vec<String> },
    /// Show those findings of the reported file for which `shown` holds.
    Render { shown: Vec<bool> },
    /// End the run with this result.
    Exit(CliRunResult),
    /// Nothing: the run did not wait for what was reported.
    Nothing,
}

/// What a [`RunAction`] is.
pub ghost enum RunActionView {
    PrintRules,
    QueryWorkingDirectory,
    Discover { paths: Seq<Seq<char>> },
    LoadOwnership { file: Seq<char> },
    BuildEngine,
    Lint { paths: Seq<Seq<char>> },
    Render { shown: Seq<bool> },
    Exit(CliRunResultView),
    Nothing,
}

impl View for RunAction {
    type V = RunActionView;

    open spec fn view(&self) -> RunActionView {
        match self {
            RunAction::PrintRules => RunActionView::PrintRules,
            RunAction::QueryWorkingDirectory => RunActionView::QueryWorkingDirectory,
            RunAction::Discover { paths } => RunActionView::Discover { paths: strings_view(paths@) },
            RunAction::LoadOwnership { file } => RunActionView::LoadOwnership { file: file@ },
            RunAction::BuildEngine => RunActionView::BuildEngine,
            RunAction::Lint { paths } => RunActionView::Lint { paths: strings_view(paths@) },
            RunAction::Render { shown } => RunActionView::Render { shown: shown@ },
            RunAction::Exit(result) => RunActionView::Exit(result@),
            RunAction::Nothing => RunActionView::Nothing,
        }
    }
}

/// A batch run in progress.
#[derive(Debug)]
pub struct LintRun {
    options: CliLintOptions,
    stage: RunStage,
    paths: Vec<String>,
    number_of_files: usize,
    number_of_rules: usize,
    aggregator: DiagnosticAggregator,
}

/// What a [`LintRun`] is: its options, what it waits for, the files it
/// holds for the next step, and its numbers so far.
pub ghost struct LintRunView {
    pub options: CliLintOptions,
    pub stage: RunStage,
    pub paths: Seq<Seq<char>>,
    pub number_of_files: usize,
    pub number_of_rules: usize,
    pub aggregator: AggregatorView,
}

impl View for LintRun {
    type V = LintRunView;

    closed spec fn view(&self) -> LintRunView {
        LintRunView {
            options: self.options,
            stage: self.stage,
            paths: strings_view(self.paths@),
            number_of_files: self.number_of_files,
            number_of_rules: self.number_of_rules,
            aggregator: self.aggregator@,
        }
    }
}

impl LintRunView {
    /// A run that has ended with `result`.
    pub open spec fn ended(self, result: CliRunResultView) -> (LintRunView, RunActionView) {
        (LintRunView { stage: RunStage::Done, paths: Seq::empty(), ..self }, RunActionView::Exit(result))
    }

    /// A run that did not wait for what was reported.
    pub open spec fn unmoved(self) -> (LintRunView, RunActionView) {
        (self, RunActionView::Nothing)
    }

    /// A run that holds `paths` and waits for the rule engine.
    pub open spec fn awaiting_engine(self, paths: Seq<Seq<char>>) -> (LintRunView, RunActionView) {
        (
            LintRunView {
                stage: RunStage::Engine,
                paths,
                number_of_files: paths.len() as usize,
                ..self
            },
            RunActionView::BuildEngine,
        )
    }

    /// The first step of a run with `options`. Options that do not go
    /// together end it at once.
    pub open spec fn begin(options: CliLintOptions) -> (LintRunView, RunActionView) {
        let fresh = LintRunView {
            options,
            stage: RunStage::Done,
            paths: Seq::empty(),
            number_of_files: 0,
            number_of_rules: 0,
            aggregator: AggregatorView::start(
                options.warning_options.quiet,
                options.warning_options.max_warnings,
            ),
        };
        if spec_check_options(options) != CliRunResultView::Nothing {
            fresh.ended(spec_check_options(options))
        } else if options.misc_options.rules {
            (LintRunView { stage: RunStage::Rules, ..fresh }, RunActionView::PrintRules)
        } else if options.paths.len() == 0 {
            (
                LintRunView { stage: RunStage::WorkingDirectory, ..fresh },
                RunActionView::QueryWorkingDirectory,
            )
        } else {
            (
                LintRunView { stage: RunStage::Discovery, ..fresh },
                RunActionView::Discover { paths: strings_view(options.paths@) },
            )
        }
    }

    /// The step after the list of rules was printed.
    pub open spec fn rules_printed(self) -> (LintRunView, RunActionView) {
        if self.stage == RunStage::Rules {
            self.ended(CliRunResultView::Nothing)
        } else {
            self.unmoved()
        }
    }

    /// The step after the working directory was asked for.
    pub open spec fn working_directory(self, directory: Option<Seq<char>>) -> (
        LintRunView,
        RunActionView,
    ) {
        if self.stage == RunStage::WorkingDirectory {
            match directory {
                Some(path) => (
                    LintRunView { stage: RunStage::Discovery, ..self },
                    RunActionView::Discover { paths: seq![path] },
                ),
                None => self.ended(
                    CliRunResultView::InvalidOptions { message: NO_WORKING_DIRECTORY@ },
                ),
            }
        } else {
            self.unmoved()
        }
    }

    /// Whether the files found are to be restricted by an ownership file
    /// that has yet to be read.
    pub open spec fn wants_ownership(self) -> bool {
        self.options.codeowner_options.codeowners_file is Some
            && self.options.codeowner_options.codeowners.len() > 0
    }

    /// The step after the files were found.
    pub open spec fn discovered(self, paths: Seq<Seq<char>>) -> (LintRunView, RunActionView) {
        if self.stage == RunStage::Discovery {
            if self.wants_ownership() {
                (
                    LintRunView { stage: RunStage::Ownership, paths, ..self },
                    RunActionView::LoadOwnership {
                        file: self.options.codeowner_options.codeowners_file->0@,
                    },
                )
            } else {
                match spec_apply_codeowners_file(self.options.codeowner_options, paths, None) {
                    Ok(kept) => self.awaiting_engine(kept),
                    Err(result) => self.ended(result),
                }
            }
        } else {
            self.unmoved()
        }
    }

    /// The step after the ownership file was read, or could not be.
    pub open spec fn ownership_loaded(self, ownership: Option<Ownership>) -> (
        LintRunView,
        RunActionView,
    ) {
        if self.stage == RunStage::Ownership {
            match spec_apply_codeowners_file(
                self.options.codeowner_options,
                self.paths,
                ownership,
            ) {
                Ok(kept) => self.awaiting_engine(kept),
                Err(result) => self.ended(result),
            }
        } else {
            self.unmoved()
        }
    }

    /// The step after the rule engine was built with `rules` rules, or could
    /// not be.
    pub open spec fn engine_built(self, rules: Option<usize>) -> (LintRunView, RunActionView) {
        if self.stage == RunStage::Engine {
            match rules {
                Some(number_of_rules) => (
                    LintRunView {
                        stage: RunStage::Draining,
                        paths: Seq::empty(),
                        number_of_rules,
                        ..self
                    },
                    RunActionView::Lint { paths: self.paths },
                ),
                None => self.ended(
                    CliRunResultView::InvalidOptions { message: CONFIGURATION_UNPARSABLE@ },
                ),
            }
        } else {
            self.unmoved()
        }
    }

    /// The step after the findings of one file came in.
    pub open spec fn unit_received(self, unit: FileUnit) -> (LintRunView, RunActionView) {
        if self.stage == RunStage::Draining {
            (
                LintRunView {
                    aggregator: self.aggregator.received(diagnostics_view(unit.diagnostics@)),
                    ..self
                },
                RunActionView::Render {
                    shown: render_mask(diagnostics_view(unit.diagnostics@), self.aggregator.quiet),
                },
            )
        } else {
            self.unmoved()
        }
    }

    /// The summary of the run as it stands.
    pub open spec fn summary(self, duration: Duration) -> LintResult {
        LintResult {
            duration,
            number_of_rules: self.number_of_rules,
            number_of_files: self.number_of_files,
            number_of_warnings: self.aggregator.warnings as usize,
            number_of_errors: self.aggregator.errors as usize,
            max_warnings_exceeded: self.aggregator.max_warnings_exceeded(),
            deny_warnings: self.options.warning_options.deny_warnings,
        }
    }

    /// The step after the channel was closed: every file has reported.
    pub open spec fn closed(self, duration: Duration) -> (LintRunView, RunActionView) {
        if self.stage == RunStage::Draining {
            self.ended(CliRunResultView::LintResult(self.summary(duration)))
        } else {
            self.unmoved()
        }
    }

    /// Whether the run can take the findings of `unit`: it does not wait
    /// for findings, or its totals leave room for them.
    pub open spec fn can_receive(self, unit: FileUnit) -> bool {
        self.stage == RunStage::Draining ==> self.aggregator.has_room_for(
            diagnostics_view(unit.diagnostics@),
        )
    }
}

impl LintRunner {
    /// Begins the run: checks the options and says what is to be done
    /// first.
    pub fn run(self) -> (started: (LintRun, RunAction))
        ensures
            (started.0@, started.1@) == LintRunView::begin(self.options),
    {
        let checked = self.check_options();
        let options = self.options;
        let aggregator = DiagnosticAggregator::new(
            options.warning_options.quiet,
            options.warning_options.max_warnings,
        );
        let mut run = LintRun {
            options,
            stage: RunStage::Done,
            paths: Vec::new(),
            number_of_files: 0,
            number_of_rules: 0,
            aggregator,
        };
        assert(strings_view(run.paths@) =~= Seq::empty());
        match checked {
            CliRunResult::Nothing => {},
            _ => {
                return (run, RunAction::Exit(checked));
            },
        }
        if run.options.misc_options.rules {
            run.stage = RunStage::Rules;
            (run, RunAction::PrintRules)
        } else if run.options.paths.len() == 0 {
            run.stage = RunStage::WorkingDirectory;
            (run, RunAction::QueryWorkingDirectory)
        } else {
            run.stage = RunStage::Discovery;
            let paths = clone_strings(&run.options.paths);
            (run, RunAction::Discover { paths })
        }
    }
}

impl LintRun {
    /// The options of the run.
    pub fn options(&self) -> (options: &CliLintOptions)
        ensures
            *options == self@.options,
    {
        &self.options
    }

    /// What the run waits for.
    pub fn stage(&self) -> (stage: RunStage)
        ensures
            stage == self@.stage,
    {
        self.stage
    }

    /// Ends the run with `result`.
    fn end(&mut self, result: CliRunResult) -> (action: RunAction)
        ensures
            (final(self)@, action@) == old(self)@.ended(result@),
    {
        self.stage = RunStage::Done;
        self.paths = Vec::new();
        assert(strings_view(self.paths@) =~= Seq::empty());
        RunAction::Exit(result)
    }

    /// Holds `paths` for the workers and asks for the rule engine.
    fn await_engine(&mut self, paths: Vec<String>) -> (action: RunAction)
        ensures
            (final(self)@, action@) == old(self)@.awaiting_engine(strings_view(paths@)),
    {
        self.stage = RunStage::Engine;
        self.number_of_files = paths.len();
        self.paths = paths;
        RunAction::BuildEngine
    }

    /// Reports that the list of rules is printed.
    pub fn rules_printed(&mut self) -> (action: RunAction)
        ensures
            (final(self)@, action@) == old(self)@.rules_printed(),
    {
        match self.stage {
            RunStage::Rules => self.end(CliRunResult::Nothing),
            _ => RunAction::Nothing,
        }
    }

    /// Reports the working directory, or that it is not to be had.
    pub fn working_directory(&mut self, directory: Option<String>) -> (action: RunAction)
        ensures
            (final(self)@, action@) == old(self)@.working_directory(
                match directory {
                    Some(path) => Some(path@),
                    None => None,
                },
            ),
    {
        match self.stage {
            RunStage::WorkingDirectory => match directory {
                Some(path) => {
                    self.stage = RunStage::Discovery;
                    let mut paths: Vec<String> = Vec::new();
                    paths.push(path);
                    assert(strings_view(paths@) =~= seq![path@]);
                    RunAction::Discover { paths }
                },
                None => self.end(CliRunResult::invalid(NO_WORKING_DIRECTORY)),
            },
            _ => RunAction::Nothing,
        }
    }

    /// Reports the files found under the paths.
    pub fn discovered(&mut self, paths: Vec<String>) -> (action: RunAction)
        ensures
            (final(self)@, action@) == old(self)@.discovered(strings_view(paths@)),
    {
        match self.stage {
            RunStage::Discovery => {
                let wanted = self.options.codeowner_options.codeowners.len() > 0;
                match &self.options.codeowner_options.codeowners_file {
                    Some(file) if wanted => {
                        let file = file.clone();
                        self.stage = RunStage::Ownership;
                        self.paths = paths;
                        RunAction::LoadOwnership { file }
                    },
                    _ => {
                        match LintRunner::apply_codeowners_file(
                            &self.options.codeowner_options,
                            paths,
                            None,
                        ) {
                            Ok(kept) => self.await_engine(kept),
                            Err(result) => self.end(result),
                        }
                    },
                }
            },
            _ => RunAction::Nothing,
        }
    }

    /// Reports what the ownership file names for each file found, in the
    /// order in which the files were reported, or that the file could not
    /// be read.
    pub fn ownership_loaded(&mut self, ownership: Option<Ownership>) -> (action: RunAction)
        ensures
            (final(self)@, action@) == old(self)@.ownership_loaded(ownership),
    {
        match self.stage {
            RunStage::Ownership => {
                let mut paths: Vec<String> = Vec::new();
                std::mem::swap(&mut paths, &mut self.paths);
                match LintRunner::apply_codeowners_file(
                    &self.options.codeowner_options,
                    paths,
                    ownership,
                ) {
                    Ok(kept) => self.await_engine(kept),
                    Err(result) => self.end(result),
                }
            },
            _ => RunAction::Nothing,
        }
    }

    /// Reports the number of rules of the rule engine, or that it could not
    /// be built.
    pub fn engine_built(&mut self, rules: Option<usize>) -> (action: RunAction)
        ensures
            (final(self)@, action@) == old(self)@.engine_built(rules),
    {
        match self.stage {
            RunStage::Engine => match rules {
                Some(number_of_rules) => {
                    let mut paths: Vec<String> = Vec::new();
                    std::mem::swap(&mut paths, &mut self.paths);
                    assert(strings_view(self.paths@) =~= Seq::empty());
                    self.stage = RunStage::Draining;
                    self.number_of_rules = number_of_rules;
                    RunAction::Lint { paths }
                },
                None => self.end(CliRunResult::invalid(CONFIGURATION_UNPARSABLE)),
            },
            _ => RunAction::Nothing,
        }
    }

    /// Whether the run can take the findings of `unit`.
    pub fn can_receive(&self, unit: &FileUnit) -> (room: bool)
        ensures
            room == self@.can_receive(*unit),
    {
        match self.stage {
            RunStage::Draining => self.aggregator.has_room_for(unit),
            _ => true,
        }
    }

    /// Reports the findings of one file. They are counted, and the action
    /// says which of them to show.
    pub fn unit_received(&mut self, unit: &FileUnit) -> (action: RunAction)
        requires
            old(self)@.can_receive(*unit),
        ensures
            (final(self)@, action@) == old(self)@.unit_received(*unit),
    {
        match self.stage {
            RunStage::Draining => {
                let shown = self.aggregator.receive(unit);
                RunAction::Render { shown }
            },
            _ => RunAction::Nothing,
        }
    }

    /// Reports that every worker has finished and the channel is closed,
    /// `duration` after the run began. The run ends with its summary.
    pub fn closed(&mut self, duration: Duration) -> (action: RunAction)
        ensures
            (final(self)@, action@) == old(self)@.closed(duration),
    {
        match self.stage {
            RunStage::Draining => {
                let summary = LintResult {
                    duration,
                    number_of_rules: self.number_of_rules,
                    number_of_files: self.number_of_files,
                    number_of_warnings: self.aggregator.warnings_count(),
                    number_of_errors: self.aggregator.errors_count(),
                    max_warnings_exceeded: self.aggregator.max_warnings_exceeded(),
                    deny_warnings: self.options.warning_options.deny_warnings,
                };
                self.end(CliRunResult::LintResult(summary))
            },
            _ => RunAction::Nothing,
        }
    }
}

/// The views of the findings of a list of units, in order.
pub open spec fn units_view(units: Seq<FileUnit>) -> Seq<Seq<crate::report::DiagnosticView>> {
    units.map_values(|unit: FileUnit| diagnostics_view(unit.diagnostics@))
}

impl LintRunView {
    /// The run after the findings of `units` came in, one file after the
    /// other.
    pub open spec fn drained(self, units: Seq<FileUnit>) -> LintRunView
        decreases units.len(),
    {
        if units.len() == 0 {
            self
        } else {
            self.drained(units.drop_last()).unit_received(units.last()).0
        }
    }
}

/// A configuration file goes neither with rule filters nor with plugin
/// options: the run is refused at its first step, before a path is looked
/// at, and ends there without a file seen.
pub proof fn lemma_conflicting_options_end_run(options: CliLintOptions)
    requires
        options.config is Some,
        options.filter.len() > 0 || options.enable_plugins.import_plugin
            || options.enable_plugins.jest_plugin || options.enable_plugins.jsx_a11y_plugin,
    ensures
        LintRunView::begin(options).0.stage == RunStage::Done,
        LintRunView::begin(options).0.aggregator.files_seen == 0,
        LintRunView::begin(options).0.number_of_files == 0,
        LintRunView::begin(options).1 == RunActionView::Exit(spec_check_options(options)),
        spec_check_options(options) is InvalidOptions,
        options.filter.len() > 0 ==> spec_check_options(options) == (
        CliRunResultView::InvalidOptions { message: crate::lint::CONFIG_WITH_FILTER@ }),
{
}

/// A run that has ended stays ended: whatever is reported to it, it asks
/// for nothing and changes nothing.
pub proof fn lemma_ended_run_asks_nothing(
    run: LintRunView,
    directory: Option<Seq<char>>,
    paths: Seq<Seq<char>>,
    ownership: Option<Ownership>,
    rules: Option<usize>,
    unit: FileUnit,
    duration: Duration,
)
    requires
        run.stage == RunStage::Done,
    ensures
        run.rules_printed() == run.unmoved(),
        run.working_directory(directory) == run.unmoved(),
        run.discovered(paths) == run.unmoved(),
        run.ownership_loaded(ownership) == run.unmoved(),
        run.engine_built(rules) == run.unmoved(),
        run.unit_received(unit) == run.unmoved(),
        run.closed(duration) == run.unmoved(),
{
}

/// Every file is accounted for exactly once: a run that takes one unit for
/// each file has seen as many files as units came in, with all their
/// warnings and errors, whatever its policy on showing and on the number of
/// warnings; and it still waits for more until the channel is closed.
pub proof fn lemma_run_counts_every_file(run: LintRunView, units: Seq<FileUnit>)
    requires
        run.stage == RunStage::Draining,
    ensures
        run.drained(units).stage == RunStage::Draining,
        run.drained(units).aggregator == run.aggregator.received_all(units_view(units)),
        run.drained(units).aggregator.files_seen == run.aggregator.files_seen + units.len(),
        run.drained(units).aggregator.warnings == run.aggregator.warnings
            + crate::aggregate::total_warnings(units_view(units)),
        run.drained(units).aggregator.errors == run.aggregator.errors
            + crate::aggregate::total_errors(units_view(units)),
        run.drained(units).number_of_files == run.number_of_files,
        run.drained(units).number_of_rules == run.number_of_rules,
        run.drained(units).options == run.options,
    decreases units.len(),
{
    crate::aggregate::lemma_every_file_counted(run.aggregator, units_view(units));
    if units.len() > 0 {
        lemma_run_counts_every_file(run, units.drop_last());
        assert(units_view(units).drop_last() == units_view(units.drop_last()));
    }
}

/// The summary of a run says what was counted: when the channel is closed
/// the run ends with the number of files that were handed to the workers,
/// the warnings and errors of all units, and the threshold flag set exactly
/// when more warnings were counted than the threshold allows.
pub proof fn lemma_summary_is_exact(run: LintRunView, duration: Duration)
    requires
        run.stage == RunStage::Draining,
        run.aggregator.warnings <= usize::MAX,
        run.aggregator.errors <= usize::MAX,
    ensures
        run.closed(duration).0.stage == RunStage::Done,
        run.closed(duration).1 == RunActionView::Exit(
            CliRunResultView::LintResult(run.summary(duration)),
        ),
        run.summary(duration).number_of_files == run.number_of_files,
        run.summary(duration).number_of_warnings == run.aggregator.warnings,
        run.summary(duration).number_of_errors == run.aggregator.errors,
        run.summary(duration).max_warnings_exceeded <==> (run.aggregator.max_warnings is Some
            && run.aggregator.warnings > run.aggregator.max_warnings->0),
{
}

} // verus!

//! The single consumer of a batch run: it takes the findings of one file
//! after the other, counts them, and says which of them are to be shown.

use crate::report::{diagnostics_view, Diagnostic, DiagnosticView, Position, Range, Severity};
use vstd::prelude::*;
use vstd::seq_lib::{to_multiset_contains, to_multiset_len, to_multiset_remove};

verus! {

/// What the workers of a batch run hand over for one file: its path and its
/// findings, in the order in which they were found.
#[derive(Debug, PartialEq, Eq)]
pub struct FileUnit {
    pub path: String,
    pub diagnostics: Vec<Diagnostic>,
}

/// The running totals of a batch run.
#[derive(Debug, Clone, Copy, PartialEq, Eq, Structural)]
pub struct RunCounts {
    pub warnings: usize,
    pub errors: usize,
    pub files_seen: usize,
}

/// The consumer of a batch run. It owns the totals; nothing else writes
/// them.
#[derive(Debug)]
pub struct DiagnosticAggregator {
    quiet: bool,
    max_warnings: Option<usize>,
    counts: RunCounts,
}

/// What a [`DiagnosticAggregator`] is: its policy and its totals so far.
pub ghost struct AggregatorView {
    pub quiet: bool,
    pub max_warnings: Option<usize>,
    pub warnings: nat,
    pub errors: nat,
    pub files_seen: nat,
}

/// How many of `diagnostics` count as warnings.
pub open spec fn count_warnings(diagnostics: Seq<DiagnosticView>) -> nat
    decreases diagnostics.len(),
{
    if diagnostics.len() == 0 {
        0
    } else {
        count_warnings(diagnostics.drop_last()) + if diagnostics.last().is_warning() {
            1nat
        } else {
            0nat
        }
    }
}

/// How many of `diagnostics` count as errors.
pub open spec fn count_errors(diagnostics: Seq<DiagnosticView>) -> nat
    decreases diagnostics.len(),
{
    if diagnostics.len() == 0 {
        0
    } else {
        count_errors(diagnostics.drop_last()) + if diagnostics.last().is_error() {
            1nat
        } else {
            0nat
        }
    }
}

/// The one finding that stands for a file that could not be read or parsed.
pub open spec fn failure_diagnostic(reason: Seq<char>) -> DiagnosticView {
    DiagnosticView {
        severity: Some(Severity::Error),
        message: reason,
        range: Range {
            start: Position { line: 0, character: 0 },
            end: Position { line: 0, character: 0 },
        },
    }
}

/// Whether a finding is shown: every finding is, but a warning in quiet
/// mode.
pub open spec fn is_shown(diagnostic: DiagnosticView, quiet: bool) -> bool {
    !(quiet && diagnostic.is_warning())
}

/// For each of `diagnostics`, in order, whether it is shown.
pub open spec fn render_mask(diagnostics: Seq<DiagnosticView>, quiet: bool) -> Seq<bool> {
    Seq::new(diagnostics.len(), |i: int| is_shown(diagnostics[i], quiet))
}

/// The warnings of all of `units` together.
pub open spec fn total_warnings(units: Seq<Seq<DiagnosticView>>) -> nat
    decreases units.len(),
{
    if units.len() == 0 {
        0
    } else {
        total_warnings(units.drop_last()) + count_warnings(units.last())
    }
}

/// The errors of all of `units` together.
pub open spec fn total_errors(units: Seq<Seq<DiagnosticView>>) -> nat
    decreases units.len(),
{
    if units.len() == 0 {
        0
    } else {
        total_errors(units.drop_last()) + count_errors(units.last())
    }
}

impl AggregatorView {
    /// The aggregator at the start of a run.
    pub open spec fn start(quiet: bool, max_warnings: Option<usize>) -> AggregatorView {
        AggregatorView { quiet, max_warnings, warnings: 0, errors: 0, files_seen: 0 }
    }

    /// The aggregator after it has taken the findings of one more file.
    pub open spec fn received(self, diagnostics: Seq<DiagnosticView>) -> AggregatorView {
        AggregatorView {
            warnings: self.warnings + count_warnings(diagnostics),
            errors: self.errors + count_errors(diagnostics),
            files_seen: self.files_seen + 1,
            ..self
        }
    }

    /// The aggregator after it has taken the findings of `units`, one file
    /// after the other.
    pub open spec fn received_all(self, units: Seq<Seq<DiagnosticView>>) -> AggregatorView
        decreases units.len(),
    {
        if units.len() == 0 {
            self
        } else {
            self.received_all(units.drop_last()).received(units.last())
        }
    }

    /// Whether a threshold is set and more warnings than that were counted.
    pub open spec fn max_warnings_exceeded(self) -> bool {
        match self.max_warnings {
            Some(max) => self.warnings > max,
            None => false,
        }
    }

    /// Whether the totals leave room for the findings of one more file.
    pub open spec fn has_room_for(self, diagnostics: Seq<DiagnosticView>) -> bool {
        &&& self.warnings + count_warnings(diagnostics) <= usize::MAX
        &&& self.errors + count_errors(diagnostics) <= usize::MAX
        &&& self.files_seen + 1 <= usize::MAX
    }
}

impl View for DiagnosticAggregator {
    type V = AggregatorView;

    closed spec fn view(&self) -> AggregatorView {
        AggregatorView {
            quiet: self.quiet,
            max_warnings: self.max_warnings,
            warnings: self.counts.warnings as nat,
            errors: self.counts.errors as nat,
            files_seen: self.counts.files_seen as nat,
        }
    }
}

impl FileUnit {
    /// The unit for a file that could not be read or parsed: one finding,
    /// an error with `reason` as its message, at the start of the file.
    pub fn failed(path: String, reason: String) -> (unit: FileUnit)
        ensures
            unit.path@ == path@,
            diagnostics_view(unit.diagnostics@) == seq![failure_diagnostic(reason@)],
    {
        let start = Position { line: 0, character: 0 };
        let diagnostic = Diagnostic {
            severity: Some(Severity::Error),
            message: reason,
            range: Range { start, end: start },
        };
        let mut diagnostics: Vec<Diagnostic> = Vec::new();
        diagnostics.push(diagnostic);
        let unit = FileUnit { path, diagnostics };
        unit
    }
}

impl DiagnosticAggregator {
    /// An aggregator that has seen nothing. With `quiet`, warnings are
    /// counted but not shown; `max_warnings` is the threshold, if any.
    pub fn new(quiet: bool, max_warnings: Option<usize>) -> (aggregator: DiagnosticAggregator)
        ensures
            aggregator@ == AggregatorView::start(quiet, max_warnings),
    {
        DiagnosticAggregator {
            quiet,
            max_warnings,
            counts: RunCounts { warnings: 0, errors: 0, files_seen: 0 },
        }
    }

    /// Takes the findings of one file: counts the file, its warnings and its
    /// errors, and says for each finding whether it is to be shown. The
    /// threshold changes neither the counts nor what is shown.
    pub fn receive(&mut self, unit: &FileUnit) -> (shown: Vec<bool>)
        requires
            old(self)@.has_room_for(diagnostics_view(unit.diagnostics@)),
        ensures
            final(self)@ == old(self)@.received(diagnostics_view(unit.diagnostics@)),
            shown@ == render_mask(diagnostics_view(unit.diagnostics@), old(self)@.quiet),
    {
        let ghost all = diagnostics_view(unit.diagnostics@);
        let mut shown: Vec<bool> = Vec::new();
        let mut warnings: usize = 0;
        let mut errors: usize = 0;
        let mut i: usize = 0;
        while i < unit.diagnostics.len()
            invariant
                i <= unit.diagnostics.len(),
                all == diagnostics_view(unit.diagnostics@),
                warnings == count_warnings(all.take(i as int)),
                errors == count_errors(all.take(i as int)),
                count_warnings(all) <= usize::MAX,
                count_errors(all) <= usize::MAX,
                shown.len() == i,
                forall|j: int| 0 <= j < i ==> shown@[j] == is_shown(all[j], self.quiet),
            decreases unit.diagnostics.len() - i,
        {
            let diagnostic = &unit.diagnostics[i];
            proof {
                assert(all.take(i + 1).drop_last() == all.take(i as int));
                lemma_counts_grow(all, i + 1);
            }
            let is_warning = diagnostic.is_warning();
            if is_warning {
                warnings += 1;
            }
            if diagnostic.is_error() {
                errors += 1;
            }
            shown.push(!(self.quiet && is_warning));
            i += 1;
        }
        assert(all.take(i as int) == all);
        self.counts.warnings += warnings;
        self.counts.errors += errors;
        self.counts.files_seen += 1;
        shown
    }

    /// Whether the totals leave room for the findings of `unit`, so that
    /// [`DiagnosticAggregator::receive`] can take it.
    pub fn has_room_for(&self, unit: &FileUnit) -> (room: bool)
        ensures
            room == self@.has_room_for(diagnostics_view(unit.diagnostics@)),
    {
        let ghost all = diagnostics_view(unit.diagnostics@);
        proof {
            lemma_counts_grow(all, all.len() as int);
        }
        let n = unit.diagnostics.len();
        if self.counts.files_seen == usize::MAX {
            return false;
        }
        if n <= usize::MAX - self.counts.warnings && n <= usize::MAX - self.counts.errors {
            return true;
        }
        let mut warnings: usize = 0;
        let mut errors: usize = 0;
        let mut i: usize = 0;
        while i < n
            invariant
                i <= n,
                n == unit.diagnostics.len(),
                all == diagnostics_view(unit.diagnostics@),
                warnings == count_warnings(all.take(i as int)),
                errors == count_errors(all.take(i as int)),
                warnings <= i,
                errors <= i,
            decreases n - i,
        {
            let diagnostic = &unit.diagnostics[i];
            proof {
                assert(all.take(i + 1).drop_last() == all.take(i as int));
            }
            if diagnostic.is_warning() {
                warnings += 1;
            }
            if diagnostic.is_error() {
                errors += 1;
            }
            i += 1;
        }
        assert(all.take(i as int) == all);
        warnings <= usize::MAX - self.counts.warnings && errors <= usize::MAX - self.counts.errors
    }

    /// The totals so far.
    pub fn counts(&self) -> (counts: RunCounts)
        ensures
            counts.warnings == self@.warnings,
            counts.errors == self@.errors,
            counts.files_seen == self@.files_seen,
    {
        self.counts
    }

    /// The warnings counted so far, shown or not.
    pub fn warnings_count(&self) -> (n: usize)
        ensures
            n == self@.warnings,
    {
        self.counts.warnings
    }

    /// The errors counted so far.
    pub fn errors_count(&self) -> (n: usize)
        ensures
            n == self@.errors,
    {
        self.counts.errors
    }

    /// The files taken so far.
    pub fn files_seen(&self) -> (n: usize)
        ensures
            n == self@.files_seen,
    {
        self.counts.files_seen
    }

    /// Whether a threshold is set and more warnings than that were counted.
    pub fn max_warnings_exceeded(&self) -> (exceeded: bool)
        ensures
            exceeded == self@.max_warnings_exceeded(),
    {
        match self.max_warnings {
            Some(max) => self.counts.warnings > max,
            None => false,
        }
    }
}

/// A longer stretch of a file's findings holds no fewer warnings and no
/// fewer errors than a shorter one, and never more than it has findings.
pub proof fn lemma_counts_grow(diagnostics: Seq<DiagnosticView>, n: int)
    requires
        0 <= n <= diagnostics.len(),
    ensures
        count_warnings(diagnostics.take(n)) <= count_warnings(diagnostics),
        count_errors(diagnostics.take(n)) <= count_errors(diagnostics),
        count_warnings(diagnostics) <= diagnostics.len(),
        count_errors(diagnostics) <= diagnostics.len(),
    decreases diagnostics.len(),
{
    if diagnostics.len() > 0 {
        if n == diagnostics.len() {
            assert(diagnostics.take(n) == diagnostics);
            lemma_counts_grow(diagnostics.drop_last(), n - 1);
        } else {
            assert(diagnostics.drop_last().take(n) == diagnostics.take(n));
            lemma_counts_grow(diagnostics.drop_last(), n);
        }
    }
}

/// Every file is accounted for exactly once: after the findings of a set of
/// files were taken, one unit for each file, the aggregator has seen as
/// many files as the set holds, with all their warnings and errors.
pub proof fn lemma_every_file_counted(start: AggregatorView, units: Seq<Seq<DiagnosticView>>)
    ensures
        start.received_all(units).files_seen == start.files_seen + units.len(),
        start.received_all(units).warnings == start.warnings + total_warnings(units),
        start.received_all(units).errors == start.errors + total_errors(units),
        start.received_all(units).quiet == start.quiet,
        start.received_all(units).max_warnings == start.max_warnings,
    decreases units.len(),
{
    if units.len() > 0 {
        lemma_every_file_counted(start, units.drop_last());
    }
}

/// How many warnings among `diagnostics` are shown, where `mask` says for
/// each finding whether it is.
pub open spec fn shown_warnings(diagnostics: Seq<DiagnosticView>, mask: Seq<bool>) -> nat
    decreases diagnostics.len(),
{
    if diagnostics.len() == 0 || mask.len() != diagnostics.len() {
        0
    } else {
        shown_warnings(diagnostics.drop_last(), mask.drop_last()) + if mask.last()
            && diagnostics.last().is_warning() {
            1nat
        } else {
            0nat
        }
    }
}

/// In quiet mode no warning is shown; without it every warning is. Errors
/// are shown in either mode.
pub proof fn lemma_quiet_shows_no_warning(diagnostics: Seq<DiagnosticView>)
    ensures
        shown_warnings(diagnostics, render_mask(diagnostics, true)) == 0,
        shown_warnings(diagnostics, render_mask(diagnostics, false)) == count_warnings(
            diagnostics,
        ),
        forall|i: int, quiet: bool|
            0 <= i < diagnostics.len() && diagnostics[i].is_error() ==> #[trigger] render_mask(
                diagnostics,
                quiet,
            )[i],
    decreases diagnostics.len(),
{
    if diagnostics.len() > 0 {
        lemma_quiet_shows_no_warning(diagnostics.drop_last());
        assert(render_mask(diagnostics, true).drop_last() == render_mask(
            diagnostics.drop_last(),
            true,
        ));
        assert(render_mask(diagnostics, false).drop_last() == render_mask(
            diagnostics.drop_last(),
            false,
        ));
    }
}

/// Quiet mode changes what is shown and nothing else: the counts after a
/// run are the same with it and without it, and they are the true counts.
pub proof fn lemma_quiet_changes_no_count(
    max_warnings: Option<usize>,
    units: Seq<Seq<DiagnosticView>>,
)
    ensures
        AggregatorView::start(true, max_warnings).received_all(units).warnings == total_warnings(
            units,
        ),
        AggregatorView::start(false, max_warnings).received_all(units).warnings == total_warnings(
            units,
        ),
        AggregatorView::start(true, max_warnings).received_all(units).errors == total_errors(
            units,
        ),
        AggregatorView::start(false, max_warnings).received_all(units).errors == total_errors(
            units,
        ),
        AggregatorView::start(true, max_warnings).received_all(units).files_seen == units.len(),
        AggregatorView::start(false, max_warnings).received_all(units).files_seen == units.len(),
{
    lemma_every_file_counted(AggregatorView::start(true, max_warnings), units);
    lemma_every_file_counted(AggregatorView::start(false, max_warnings), units);
}

/// With a threshold, the run counts as exceeded exactly when more warnings
/// than the threshold were counted; the threshold changes no count.
pub proof fn lemma_threshold_only_flags(
    quiet: bool,
    threshold: usize,
    units: Seq<Seq<DiagnosticView>>,
)
    ensures
        AggregatorView::start(quiet, Some(threshold)).received_all(units).max_warnings_exceeded()
            <==> total_warnings(units) > threshold,
        !AggregatorView::start(quiet, None).received_all(units).max_warnings_exceeded(),
        AggregatorView::start(quiet, Some(threshold)).received_all(units).warnings
            == AggregatorView::start(quiet, None).received_all(units).warnings,
        AggregatorView::start(quiet, Some(threshold)).received_all(units).errors
            == AggregatorView::start(quiet, None).received_all(units).errors,
        AggregatorView::start(quiet, Some(threshold)).received_all(units).files_seen
            == AggregatorView::start(quiet, None).received_all(units).files_seen,
{
    lemma_every_file_counted(AggregatorView::start(quiet, Some(threshold)), units);
    lemma_every_file_counted(AggregatorView::start(quiet, None), units);
}

/// Once exceeded, the threshold stays exceeded whatever is taken next.
pub proof fn lemma_exceeded_is_sticky(aggregator: AggregatorView, diagnostics: Seq<DiagnosticView>)
    requires
        aggregator.max_warnings_exceeded(),
    ensures
        aggregator.received(diagnostics).max_warnings_exceeded(),
{
}

/// Taking one unit out of a list takes its warnings and errors out of the
/// totals.
proof fn lemma_totals_without(units: Seq<Seq<DiagnosticView>>, i: int)
    requires
        0 <= i < units.len(),
    ensures
        total_warnings(units) == total_warnings(units.remove(i)) + count_warnings(units[i]),
        total_errors(units) == total_errors(units.remove(i)) + count_errors(units[i]),
    decreases units.len(),
{
    if i < units.len() - 1 {
        lemma_totals_without(units.drop_last(), i);
        assert(units.remove(i).drop_last() == units.drop_last().remove(i));
    }
}

/// Two lists of the same units have the same totals, whatever their order.
proof fn lemma_totals_of_reordered(
    first: Seq<Seq<DiagnosticView>>,
    second: Seq<Seq<DiagnosticView>>,
)
    requires
        first.to_multiset() == second.to_multiset(),
    ensures
        first.len() == second.len(),
        total_warnings(first) == total_warnings(second),
        total_errors(first) == total_errors(second),
    decreases first.len(),
{
    to_multiset_len(first);
    to_multiset_len(second);
    if first.len() > 0 {
        let unit = first.last();
        assert(first.contains(unit));
        to_multiset_contains(first, unit);
        to_multiset_contains(second, unit);
        let at = choose|at: int| 0 <= at < second.len() && second[at] == unit;
        to_multiset_remove(first, first.len() - 1);
        to_multiset_remove(second, at);
        lemma_totals_of_reordered(first.drop_last(), second.remove(at));
        lemma_totals_without(second, at);
    }
}

/// The channel keeps no order between files, and none is needed: the
/// aggregator ends with the same totals in whatever order the units of a run
/// come in.
pub proof fn lemma_order_of_units_is_irrelevant(
    start: AggregatorView,
    first: Seq<Seq<DiagnosticView>>,
    second: Seq<Seq<DiagnosticView>>,
)
    requires
        first.to_multiset() == second.to_multiset(),
    ensures
        start.received_all(first) == start.received_all(second),
{
    lemma_totals_of_reordered(first, second);
    lemma_every_file_counted(start, first);
    lemma_every_file_counted(start, second);
}

} // verus!

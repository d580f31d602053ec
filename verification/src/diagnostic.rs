//! Diagnostics, their severities and the per-severity totals.

use vstd::prelude::*;

verus! {

/// How serious a diagnostic is.
#[derive(Clone, Copy, Debug, PartialEq, Eq, Structural)]
pub enum Severity {
    Warning,
    Error,
    Other,
}

/// The severity that a level name stands for: `warning` and `error` name
/// themselves, every other name is `Other`.
pub open spec fn severity_of(level: Seq<char>) -> Severity {
    if level == "warning"@ {
        Severity::Warning
    } else if level == "error"@ {
        Severity::Error
    } else {
        Severity::Other
    }
}

/// One classified build message.
#[derive(Debug)]
pub struct Diagnostic {
    pub severity: Severity,
    pub text: String,
    pub sequence: u64,
}

/// What a `Diagnostic` holds, as mathematical values.
pub struct DiagnosticView {
    pub severity: Severity,
    pub text: Seq<char>,
    pub sequence: nat,
}

impl View for Diagnostic {
    type V = DiagnosticView;

    open spec fn view(&self) -> DiagnosticView {
        DiagnosticView {
            severity: self.severity,
            text: self.text@,
            sequence: self.sequence as nat,
        }
    }
}

impl Clone for Diagnostic {
    fn clone(&self) -> (copy: Self)
        ensures
            copy == *self,
    {
        Diagnostic { severity: self.severity, text: self.text.clone(), sequence: self.sequence }
    }
}

impl Diagnostic {
    pub fn new(severity: Severity, text: String, sequence: u64) -> (made: Self)
        ensures
            made.severity == severity,
            made.text == text,
            made.sequence == sequence,
    {
        Diagnostic { severity, text, sequence }
    }
}

/// The views of a run of diagnostics, in the same order.
pub open spec fn views_of(items: Seq<Diagnostic>) -> Seq<DiagnosticView> {
    items.map_values(|d: Diagnostic| d@)
}

/// How many diagnostics of each severity a store holds.
#[derive(Clone, Copy, Debug, PartialEq, Eq, Structural)]
pub struct BuildCounts {
    pub warnings: usize,
    pub errors: usize,
    pub others: usize,
}

impl BuildCounts {
    /// All three totals at zero.
    pub fn zero() -> (counts: Self)
        ensures
            counts == (BuildCounts { warnings: 0, errors: 0, others: 0 }),
    {
        BuildCounts { warnings: 0, errors: 0, others: 0 }
    }

    /// The sum of the three totals.
    pub open spec fn total(self) -> int {
        self.warnings + self.errors + self.others
    }
}

/// The entries of `items` whose severity is `severity`.
pub open spec fn with_severity(items: Seq<DiagnosticView>, severity: Severity) -> Seq<
    DiagnosticView,
> {
    items.filter(|d: DiagnosticView| d.severity == severity)
}

/// The entries of `items` that the warning filter lets through: all of them
/// when the filter is off, those that are no warning when it is on.
pub open spec fn filtered(items: Seq<DiagnosticView>, ignore_warnings: bool) -> Seq<
    DiagnosticView,
> {
    if ignore_warnings {
        items.filter(|d: DiagnosticView| d.severity != Severity::Warning)
    } else {
        items
    }
}

/// Filtering a sequence that grew by one entry filters the old part and then
/// decides on the new entry.
pub proof fn lemma_filter_push<A>(items: Seq<A>, last: A, keep: spec_fn(A) -> bool)
    ensures
        items.push(last).filter(keep) == if keep(last) {
            items.filter(keep).push(last)
        } else {
            items.filter(keep)
        },
{
    reveal(Seq::filter);
    assert(items.push(last).drop_last() == items);
}

/// Every entry has exactly one severity, so the three classes add up to the
/// whole.
pub proof fn lemma_severities_partition(items: Seq<DiagnosticView>)
    ensures
        with_severity(items, Severity::Warning).len() + with_severity(items, Severity::Error).len()
            + with_severity(items, Severity::Other).len() == items.len(),
    decreases items.len(),
{
    reveal(Seq::filter);
    if items.len() > 0 {
        lemma_severities_partition(items.drop_last());
    }
}

/// With the filter on, what is let through and the warnings add up to the
/// whole.
pub proof fn lemma_filtered_len(items: Seq<DiagnosticView>)
    ensures
        filtered(items, true).len() + with_severity(items, Severity::Warning).len() == items.len(),
        filtered(items, false).len() == items.len(),
    decreases items.len(),
{
    reveal(Seq::filter);
    if items.len() > 0 {
        lemma_filtered_len(items.drop_last());
    }
}

/// `positions` picks `part` out of `whole` without reordering: it names, in
/// rising order, the place in `whole` of each entry of `part`.
pub open spec fn picks(positions: Seq<int>, part: Seq<DiagnosticView>, whole: Seq<DiagnosticView>) -> bool {
    &&& positions.len() == part.len()
    &&& forall|i: int|
        0 <= i < positions.len() ==> 0 <= #[trigger] positions[i] < whole.len() && part[i]
            == whole[positions[i]]
    &&& forall|i: int, j: int|
        0 <= i < j < positions.len() ==> #[trigger] positions[i] < #[trigger] positions[j]
}

/// The places of the entries of `items` that are no warning, in rising order.
pub open spec fn kept_positions(items: Seq<DiagnosticView>) -> Seq<int>
    decreases items.len(),
{
    if items.len() == 0 {
        Seq::empty()
    } else if items.last().severity != Severity::Warning {
        kept_positions(items.drop_last()).push(items.len() - 1)
    } else {
        kept_positions(items.drop_last())
    }
}

/// The view with the filter on is a subsequence of the view with the filter
/// off: it holds the entries that are no warning, all of them, each once and
/// in the order in which they were stored.
pub proof fn lemma_filtered_is_subsequence(items: Seq<DiagnosticView>)
    ensures
        filtered(items, false) == items,
        picks(kept_positions(items), filtered(items, true), filtered(items, false)),
        forall|p: int|
            0 <= p < items.len() ==> (kept_positions(items).contains(p) <==> items[p].severity
                != Severity::Warning),
        forall|p: int| kept_positions(items).contains(p) ==> 0 <= p < items.len(),
    decreases items.len(),
{
    reveal(Seq::filter);
    if items.len() > 0 {
        let front = items.drop_last();
        let here = items.len() - 1;
        lemma_filtered_is_subsequence(front);
        let before = kept_positions(front);
        let after = kept_positions(items);
        assert forall|i: int| 0 <= i < before.len() implies before[i] < here by {
            assert(before.contains(before[i]));
        }
        if items.last().severity != Severity::Warning {
            assert(after == before.push(here));
            assert(filtered(items, true) == filtered(front, true).push(items.last()));
            assert forall|p: int| 0 <= p < items.len() implies (after.contains(p)
                <==> items[p].severity != Severity::Warning) by {
                if p == here {
                    assert(after[before.len() as int] == here);
                } else {
                    if before.contains(p) {
                        let i = choose|i: int| 0 <= i < before.len() && before[i] == p;
                        assert(after[i] == p);
                    }
                    if after.contains(p) {
                        let i = choose|i: int| 0 <= i < after.len() && after[i] == p;
                        assert(before[i] == p);
                    }
                }
            }
            assert forall|p: int| after.contains(p) implies 0 <= p < items.len() by {
                let i = choose|i: int| 0 <= i < after.len() && after[i] == p;
                if i < before.len() {
                    assert(before.contains(before[i]));
                }
            }
        } else {
            assert(after == before);
            assert(filtered(items, true) == filtered(front, true));
        }
    }
}

} // verus!

//! The append-only store of diagnostics and its running totals.

use vstd::prelude::*;
use crate::diagnostic::{
    filtered, lemma_filter_push, lemma_filtered_len, lemma_severities_partition, views_of,
    with_severity, BuildCounts, Diagnostic, DiagnosticView, Severity,
};

verus! {

/// Diagnostics in insertion order, with the number of each severity kept up
/// to date on every insert.
pub struct MessageStore {
    items: Vec<Diagnostic>,
    counts: BuildCounts,
}

impl View for MessageStore {
    type V = Seq<DiagnosticView>;

    closed spec fn view(&self) -> Seq<DiagnosticView> {
        views_of(self.items@)
    }
}

impl MessageStore {
    /// The running totals, as stored.
    pub closed spec fn spec_counts(&self) -> BuildCounts {
        self.counts
    }

    /// The totals agree with the contents.
    pub open spec fn wf(&self) -> bool {
        &&& self.spec_counts().warnings == with_severity(self@, Severity::Warning).len()
        &&& self.spec_counts().errors == with_severity(self@, Severity::Error).len()
        &&& self.spec_counts().others == with_severity(self@, Severity::Other).len()
    }

    /// An empty store with zero totals.
    pub fn new() -> (store: Self)
        ensures
            store.wf(),
            store@ == Seq::<DiagnosticView>::empty(),
            store.spec_counts() == (BuildCounts { warnings: 0, errors: 0, others: 0 }),
    {
        let store = MessageStore { items: Vec::new(), counts: BuildCounts::zero() };
        proof {
            reveal(Seq::filter);
            assert(store@ =~= Seq::<DiagnosticView>::empty());
        }
        store
    }

    /// Adds `diagnostic` at the end and counts it under its severity.
    pub fn append(&mut self, diagnostic: Diagnostic)
        requires
            old(self).wf(),
        ensures
            final(self).wf(),
            final(self)@ == old(self)@.push(diagnostic@),
            final(self).spec_counts().total() == final(self)@.len(),
    {
        let severity = diagnostic.severity;
        proof {
            let before = self@;
            lemma_severities_partition(before);
            lemma_filter_push(before, diagnostic@, |d: DiagnosticView| d.severity == Severity::Warning);
            lemma_filter_push(before, diagnostic@, |d: DiagnosticView| d.severity == Severity::Error);
            lemma_filter_push(before, diagnostic@, |d: DiagnosticView| d.severity == Severity::Other);
            lemma_severities_partition(before.push(diagnostic@));
            assert(views_of(self.items@.push(diagnostic)) =~= before.push(diagnostic@));
        }
        self.items.push(diagnostic);
        let held = self.items.len();
        assert(old(self)@.len() + 1 == held);
        match severity {
            Severity::Warning => {
                self.counts.warnings = self.counts.warnings + 1;
            },
            Severity::Error => {
                self.counts.errors = self.counts.errors + 1;
            },
            Severity::Other => {
                self.counts.others = self.counts.others + 1;
            },
        }
    }

    /// The running totals.
    pub fn counts(&self) -> (counts: BuildCounts)
        requires
            self.wf(),
        ensures
            counts == self.spec_counts(),
            counts.warnings == with_severity(self@, Severity::Warning).len(),
            counts.errors == with_severity(self@, Severity::Error).len(),
            counts.others == with_severity(self@, Severity::Other).len(),
            counts.total() == self@.len(),
    {
        proof {
            lemma_severities_partition(self@);
        }
        self.counts
    }

    /// How many diagnostics the store holds.
    pub fn len(&self) -> (n: usize)
        ensures
            n == self@.len(),
    {
        self.items.len()
    }

    /// The diagnostic at position `index`, if there is one.
    pub fn get(&self, index: usize) -> (found: Option<&Diagnostic>)
        ensures
            index < self@.len() ==> found is Some && found->0@ == self@[index as int],
            index >= self@.len() ==> found is None,
    {
        if index < self.items.len() {
            Some(&self.items[index])
        } else {
            None
        }
    }

    /// Discards every diagnostic and sets the totals back to zero.
    pub fn reset(&mut self)
        ensures
            final(self).wf(),
            final(self)@ == Seq::<DiagnosticView>::empty(),
            final(self).spec_counts() == (BuildCounts { warnings: 0, errors: 0, others: 0 }),
    {
        self.items.clear();
        self.counts = BuildCounts::zero();
        proof {
            reveal(Seq::filter);
            assert(self@ =~= Seq::<DiagnosticView>::empty());
        }
    }

    /// How many diagnostics the warning filter lets through.
    pub fn filtered_len(&self, ignore_warnings: bool) -> (n: usize)
        requires
            self.wf(),
        ensures
            n == filtered(self@, ignore_warnings).len(),
    {
        proof {
            lemma_filtered_len(self@);
        }
        if ignore_warnings {
            self.items.len() - self.counts.warnings
        } else {
            self.items.len()
        }
    }

    /// Copies of the diagnostics that the warning filter lets through, in
    /// insertion order.
    pub fn filtered_view(&self, ignore_warnings: bool) -> (shown: Vec<Diagnostic>)
        ensures
            views_of(shown@) == filtered(self@, ignore_warnings),
    {
        let mut shown: Vec<Diagnostic> = Vec::new();
        let ghost keep = |d: DiagnosticView| d.severity != Severity::Warning;
        proof {
            reveal(Seq::filter);
            assert(self@.take(0) =~= Seq::<DiagnosticView>::empty());
            assert(views_of(shown@) =~= filtered(self@.take(0), ignore_warnings));
        }
        let mut i: usize = 0;
        while i < self.items.len()
            invariant
                i <= self.items.len(),
                keep == |d: DiagnosticView| d.severity != Severity::Warning,
                views_of(shown@) == filtered(self@.take(i as int), ignore_warnings),
            decreases self.items.len() - i,
        {
            let item = &self.items[i];
            proof {
                assert(self@.take(i + 1) =~= self@.take(i as int).push(item@));
                lemma_filter_push(self@.take(i as int), item@, keep);
            }
            let hidden = ignore_warnings && item.severity == Severity::Warning;
            if !hidden {
                let copy = item.clone();
                proof {
                    assert(views_of(shown@.push(copy)) =~= views_of(shown@).push(item@));
                }
                shown.push(copy);
            }
            i = i + 1;
        }
        proof {
            assert(self@.take(i as int) =~= self@);
        }
        shown
    }

    /// The diagnostic at position `position` of the filtered view, if the view
    /// is that long.
    pub fn nth_filtered(&self, ignore_warnings: bool, position: usize) -> (found: Option<
        &Diagnostic,
    >)
        ensures
            position < filtered(self@, ignore_warnings).len() ==> found is Some && found->0@
                == filtered(self@, ignore_warnings)[position as int],
            position >= filtered(self@, ignore_warnings).len() ==> found is None,
    {
        let ghost keep = |d: DiagnosticView| d.severity != Severity::Warning;
        let mut seen: usize = 0;
        let mut i: usize = 0;
        proof {
            reveal(Seq::filter);
            assert(self@.take(0) =~= Seq::<DiagnosticView>::empty());
        }
        while i < self.items.len()
            invariant
                i <= self.items.len(),
                keep == |d: DiagnosticView| d.severity != Severity::Warning,
                seen == filtered(self@.take(i as int), ignore_warnings).len(),
                seen <= position,
                seen <= i,
            decreases self.items.len() - i,
        {
            let item = &self.items[i];
            proof {
                assert(self@.take(i + 1) =~= self@.take(i as int).push(item@));
                lemma_filter_push(self@.take(i as int), item@, keep);
            }
            let hidden = ignore_warnings && item.severity == Severity::Warning;
            if !hidden {
                if seen == position {
                    proof {
                        let head = self@.take(i + 1);
                        let tail = self@.skip(i + 1);
                        assert(head + tail =~= self@);
                        Seq::filter_distributes_over_add(head, tail, keep);
                        assert(filtered(self@, ignore_warnings) =~= filtered(head, ignore_warnings)
                            + filtered(tail, ignore_warnings));
                    }
                    return Some(item);
                }
                seen = seen + 1;
            }
            i = i + 1;
        }
        proof {
            assert(self@.take(i as int) =~= self@);
        }
        None
    }
}

} // verus!

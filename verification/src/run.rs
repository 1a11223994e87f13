//! One run over a manifest: the results of its entries and their summary.

use vstd::prelude::*;
use crate::manifest::ManifestEntry;
use crate::outcome::{ExtractError, Outcome};
use crate::policy::upper_extension_of;
use crate::task::{
    answers_alike, is_task_outcome, law_task_outcome_is_determined, run_task, Action, Event,
    Layout, LayoutView,
};

verus! {

/// An entry together with what became of it.
#[derive(Debug, Clone, PartialEq, Eq)]
pub struct ExtractionResult {
    pub entry: ManifestEntry,
    pub outcome: Outcome,
}

/// How many of `outcomes` are successes.
pub open spec fn successes(outcomes: Seq<Outcome>) -> nat
    decreases outcomes.len(),
{
    if outcomes.len() == 0 {
        0
    } else {
        successes(outcomes.drop_last()) + if outcomes.last() is Success {
            1nat
        } else {
            0nat
        }
    }
}

/// How many of `outcomes` are skips.
pub open spec fn skips(outcomes: Seq<Outcome>) -> nat
    decreases outcomes.len(),
{
    if outcomes.len() == 0 {
        0
    } else {
        skips(outcomes.drop_last()) + if outcomes.last() is Skipped {
            1nat
        } else {
            0nat
        }
    }
}

/// How many of `outcomes` are failures.
pub open spec fn failures(outcomes: Seq<Outcome>) -> nat
    decreases outcomes.len(),
{
    if outcomes.len() == 0 {
        0
    } else {
        failures(outcomes.drop_last()) + if outcomes.last() is Failed {
            1nat
        } else {
            0nat
        }
    }
}

/// The outcomes of `results`, in order.
pub open spec fn outcomes_of(results: Seq<ExtractionResult>) -> Seq<Outcome> {
    results.map_values(|result: ExtractionResult| result.outcome)
}

/// Every outcome is counted exactly once: the successes, skips and failures
/// of a run add up to the number of its outcomes.
pub proof fn lemma_counts_add_up(outcomes: Seq<Outcome>)
    ensures
        successes(outcomes) + skips(outcomes) + failures(outcomes) == outcomes.len(),
    decreases outcomes.len(),
{
    if outcomes.len() > 0 {
        lemma_counts_add_up(outcomes.drop_last());
    }
}

/// A run accounts for every entry of its manifest: with one result for each
/// entry, the successes, skips and failures add up to the number of
/// entries.
pub proof fn law_every_entry_is_counted(
    entries: Seq<ManifestEntry>,
    results: Seq<ExtractionResult>,
)
    requires
        results.len() == entries.len(),
    ensures
        successes(outcomes_of(results)) + skips(outcomes_of(results)) + failures(
            outcomes_of(results),
        ) == entries.len(),
{
    lemma_counts_add_up(outcomes_of(results));
}

/// Taking one outcome out of a sequence lowers the count of its kind by one
/// and leaves the other two counts as they are.
pub proof fn lemma_counts_remove(outcomes: Seq<Outcome>, i: int)
    requires
        0 <= i < outcomes.len(),
    ensures
        successes(outcomes) == successes(outcomes.remove(i)) + if outcomes[i] is Success {
            1nat
        } else {
            0nat
        },
        skips(outcomes) == skips(outcomes.remove(i)) + if outcomes[i] is Skipped {
            1nat
        } else {
            0nat
        },
        failures(outcomes) == failures(outcomes.remove(i)) + if outcomes[i] is Failed {
            1nat
        } else {
            0nat
        },
    decreases outcomes.len(),
{
    if i < outcomes.len() - 1 {
        lemma_counts_remove(outcomes.drop_last(), i);
        assert(outcomes.remove(i).drop_last() =~= outcomes.drop_last().remove(i));
    }
}

/// The order in which tasks complete does not matter: two sequences that
/// hold the same outcomes, each as often as the other, have the same counts.
pub proof fn lemma_counts_ignore_order(a: Seq<Outcome>, b: Seq<Outcome>)
    requires
        a.to_multiset() == b.to_multiset(),
    ensures
        successes(a) == successes(b),
        skips(a) == skips(b),
        failures(a) == failures(b),
    decreases a.len(),
{
    a.to_multiset_ensures();
    b.to_multiset_ensures();
    if a.len() > 0 {
        let x = a.last();
        assert(a.to_multiset().count(x) > 0);
        let i = choose|i: int| 0 <= i < b.len() && b[i] == x;
        assert(a.drop_last() =~= a.remove(a.len() - 1));
        lemma_counts_ignore_order(a.drop_last(), b.remove(i));
        lemma_counts_remove(b, i);
    }
}

/// The summary of a run does not depend on the order in which its tasks
/// completed, and so not on the number of workers: two sequences that hold
/// the same results, each as often as the other, have the same counts.
pub proof fn law_summary_ignores_order(a: Seq<ExtractionResult>, b: Seq<ExtractionResult>)
    requires
        a.to_multiset() == b.to_multiset(),
    ensures
        successes(outcomes_of(a)) == successes(outcomes_of(b)),
        skips(outcomes_of(a)) == skips(outcomes_of(b)),
        failures(outcomes_of(a)) == failures(outcomes_of(b)),
    decreases a.len(),
{
    a.to_multiset_ensures();
    b.to_multiset_ensures();
    if a.len() > 0 {
        let x = a.last();
        assert(a.to_multiset().count(x) > 0);
        let i = choose|i: int| 0 <= i < b.len() && b[i] == x;
        assert(a.drop_last() =~= a.remove(a.len() - 1));
        law_summary_ignores_order(a.drop_last(), b.remove(i));
        lemma_counts_remove(outcomes_of(b), i);
        assert(outcomes_of(b).remove(i) =~= outcomes_of(b.remove(i)));
        assert(outcomes_of(a).drop_last() =~= outcomes_of(a.drop_last()));
    }
}

/// What one run over a manifest came to.
#[derive(Debug, Clone, Copy, PartialEq, Eq, Structural)]
pub struct Summary {
    pub success_count: usize,
    pub skipped_count: usize,
    pub failed_count: usize,
    /// Seconds from the start of the run to its end.
    pub elapsed_seconds: u64,
}

impl Summary {
    /// The number of entries that the summary accounts for.
    pub open spec fn total(&self) -> nat {
        (self.success_count + self.skipped_count + self.failed_count) as nat
    }
}

/// Seconds from `start` to `end`; none where the clock went backwards.
pub open spec fn elapsed_between(start: u64, end: u64) -> u64 {
    if end >= start {
        (end - start) as u64
    } else {
        0
    }
}

/// Seconds from `start` to `end`, both in seconds since the epoch.
pub fn elapsed(start: u64, end: u64) -> (r: u64)
    ensures
        r == elapsed_between(start, end),
{
    if end >= start {
        end - start
    } else {
        0
    }
}

/// The summary of a run with the results `results`, which took
/// `elapsed_seconds`. Every result is counted once, under the kind of its
/// outcome.
pub fn summarize(results: &Vec<ExtractionResult>, elapsed_seconds: u64) -> (r: Summary)
    ensures
        r.success_count == successes(outcomes_of(results@)),
        r.skipped_count == skips(outcomes_of(results@)),
        r.failed_count == failures(outcomes_of(results@)),
        r.total() == results@.len(),
        r.elapsed_seconds == elapsed_seconds,
{
    let ghost outcomes = outcomes_of(results@);
    let mut success_count: usize = 0;
    let mut skipped_count: usize = 0;
    let mut failed_count: usize = 0;
    let mut i: usize = 0;
    while i < results.len()
        invariant
            i <= results.len(),
            outcomes == outcomes_of(results@),
            success_count == successes(outcomes.take(i as int)),
            skipped_count == skips(outcomes.take(i as int)),
            failed_count == failures(outcomes.take(i as int)),
        decreases results.len() - i,
    {
        proof {
            lemma_counts_add_up(outcomes.take(i as int));
            assert(outcomes.take(i + 1).drop_last() =~= outcomes.take(i as int));
        }
        match &results[i].outcome {
            Outcome::Success => {
                success_count += 1;
            },
            Outcome::Skipped(_) => {
                skipped_count += 1;
            },
            Outcome::Failed(_) => {
                failed_count += 1;
            },
        }
        i += 1;
    }
    proof {
        assert(outcomes.take(i as int) =~= outcomes);
        lemma_counts_add_up(outcomes);
    }
    Summary { success_count, skipped_count, failed_count, elapsed_seconds }
}

/// How a run over a manifest ends. A manifest that broke while it was read
/// fails the run with that error, whatever was extracted before; otherwise
/// the run ends with the summary of its results. An entry that was skipped
/// or failed never fails the run.
pub fn conclude(
    broken: Option<ExtractError>,
    results: &Vec<ExtractionResult>,
    elapsed_seconds: u64,
) -> (r: Result<Summary, ExtractError>)
    ensures
        match r {
            Ok(summary) => {
                &&& broken is None
                &&& summary.success_count == successes(outcomes_of(results@))
                &&& summary.skipped_count == skips(outcomes_of(results@))
                &&& summary.failed_count == failures(outcomes_of(results@))
                &&& summary.total() == results@.len()
                &&& summary.elapsed_seconds == elapsed_seconds
            },
            Err(error) => broken == Some(error),
        },
{
    match broken {
        Some(error) => Err(error),
        None => Ok(summarize(results, elapsed_seconds)),
    }
}

/// Whether `results` holds what a run over `entries` gives: one result for
/// each entry, in the manifest's order, each with an outcome of that entry's
/// task when `perform` does the work.
pub open spec fn is_run_of<F: Fn(Action) -> Event>(
    perform: F,
    layout: LayoutView,
    entries: Seq<ManifestEntry>,
    results: Seq<ExtractionResult>,
) -> bool {
    &&& results.len() == entries.len()
    &&& forall|i: int|
        0 <= i < results.len() ==> {
            &&& (#[trigger] results[i]).entry == entries[i]
            &&& is_task_outcome(
                perform,
                layout,
                entries[i]@,
                upper_extension_of(entries[i]@.relative_path),
                results[i].outcome@,
            )
        }
}

/// Extracts the entries of a manifest one after the other, with `perform`
/// doing the work on the file system, and returns one result for each entry,
/// in the manifest's order. An entry that is skipped or fails has its result
/// like any other and does not stop the entries behind it.
pub fn run_manifest<F: Fn(Action) -> Event>(
    layout: &Layout,
    entries: &Vec<ManifestEntry>,
    perform: &F,
) -> (r: Vec<ExtractionResult>)
    requires
        forall|action: Action| call_requires(*perform, (action,)),
    ensures
        is_run_of(*perform, layout@, entries@, r@),
{
    let mut results: Vec<ExtractionResult> = Vec::new();
    let mut i: usize = 0;
    while i < entries.len()
        invariant
            i <= entries.len(),
            forall|action: Action| call_requires(*perform, (action,)),
            is_run_of(*perform, layout@, entries@.take(i as int), results@),
        decreases entries.len() - i,
    {
        let outcome = run_task(layout, &entries[i], perform);
        results.push(ExtractionResult { entry: entries[i].clone(), outcome });
        i += 1;
    }
    results
}

/// Outcomes that agree one by one, each with the other of its place, have
/// the same counts.
pub proof fn lemma_counts_follow_outcomes(a: Seq<Outcome>, b: Seq<Outcome>)
    requires
        a.len() == b.len(),
        forall|i: int| 0 <= i < a.len() ==> a[i]@ == b[i]@,
    ensures
        successes(a) == successes(b),
        skips(a) == skips(b),
        failures(a) == failures(b),
    decreases a.len(),
{
    if a.len() > 0 {
        assert forall|i: int| 0 <= i < a.drop_last().len() implies a.drop_last()[i]@
            == b.drop_last()[i]@ by {}
        lemma_counts_follow_outcomes(a.drop_last(), b.drop_last());
    }
}

/// The number of workers does not show in what a run gives. Where the file
/// system answers alike, two runs over one manifest give every entry the
/// same outcome; and the results of a run, taken in the order in which its
/// workers completed them, have the counts of the run in the manifest's
/// order. `completed` is `other` in any order.
pub proof fn law_workers_do_not_matter<F: Fn(Action) -> Event>(
    perform: F,
    layout: LayoutView,
    entries: Seq<ManifestEntry>,
    one: Seq<ExtractionResult>,
    other: Seq<ExtractionResult>,
    completed: Seq<ExtractionResult>,
)
    requires
        answers_alike(perform),
        is_run_of(perform, layout, entries, one),
        is_run_of(perform, layout, entries, other),
        completed.to_multiset() == other.to_multiset(),
    ensures
        forall|i: int| 0 <= i < entries.len() ==> (#[trigger] one[i]).outcome@ == other[i].outcome@,
        successes(outcomes_of(completed)) == successes(outcomes_of(one)),
        skips(outcomes_of(completed)) == skips(outcomes_of(one)),
        failures(outcomes_of(completed)) == failures(outcomes_of(one)),
{
    assert forall|i: int| 0 <= i < entries.len() implies (#[trigger] one[i]).outcome@
        == other[i].outcome@ by {
        law_task_outcome_is_determined(
            perform,
            layout,
            entries[i]@,
            upper_extension_of(entries[i]@.relative_path),
            one[i].outcome@,
            other[i].outcome@,
        );
    }
    assert forall|i: int| 0 <= i < outcomes_of(one).len() implies outcomes_of(one)[i]@
        == outcomes_of(other)[i]@ by {}
    lemma_counts_follow_outcomes(outcomes_of(one), outcomes_of(other));
    law_summary_ignores_order(completed, other);
}

/// The running count of a run whose tasks complete in any order.
///
/// A tally expects a fixed number of outcomes and takes no more than that.
/// It is complete once it has them all, and only then gives a summary.
pub struct Tally {
    expected: usize,
    success_count: usize,
    skipped_count: usize,
    failed_count: usize,
}

/// A `Tally` as four numbers.
pub struct TallyView {
    pub expected: nat,
    pub success_count: nat,
    pub skipped_count: nat,
    pub failed_count: nat,
}

impl TallyView {
    /// How many outcomes the tally has taken.
    pub open spec fn recorded(self) -> nat {
        self.success_count + self.skipped_count + self.failed_count
    }

    /// The tally after it has taken `outcome`; a complete tally takes nothing.
    pub open spec fn with(self, outcome: Outcome) -> TallyView {
        if self.recorded() >= self.expected {
            self
        } else {
            match outcome {
                Outcome::Success => TallyView { success_count: self.success_count + 1, ..self },
                Outcome::Skipped(_) => TallyView { skipped_count: self.skipped_count + 1, ..self },
                Outcome::Failed(_) => TallyView { failed_count: self.failed_count + 1, ..self },
            }
        }
    }
}

impl View for Tally {
    type V = TallyView;

    closed spec fn view(&self) -> TallyView {
        TallyView {
            expected: self.expected as nat,
            success_count: self.success_count as nat,
            skipped_count: self.skipped_count as nat,
            failed_count: self.failed_count as nat,
        }
    }
}

impl Tally {
    #[verifier::type_invariant]
    spec fn within_expected(self) -> bool {
        self.success_count + self.skipped_count + self.failed_count <= self.expected
    }

    /// An empty tally for a run of `expected` entries.
    pub fn new(expected: usize) -> (r: Tally)
        ensures
            r@ == (TallyView { expected: expected as nat, success_count: 0, skipped_count: 0, failed_count: 0 }),
    {
        Tally { expected, success_count: 0, skipped_count: 0, failed_count: 0 }
    }

    /// Counts `outcome`. Returns whether it was taken: a complete tally
    /// takes nothing and stays as it is.
    pub fn record(&mut self, outcome: &Outcome) -> (taken: bool)
        ensures
            final(self)@ == old(self)@.with(*outcome),
            taken == (old(self)@.recorded() < old(self)@.expected),
    {
        proof {
            use_type_invariant(&*self);
        }
        if self.success_count + self.skipped_count + self.failed_count >= self.expected {
            return false;
        }
        match outcome {
            Outcome::Success => {
                self.success_count += 1;
            },
            Outcome::Skipped(_) => {
                self.skipped_count += 1;
            },
            Outcome::Failed(_) => {
                self.failed_count += 1;
            },
        }
        true
    }

    /// How many outcomes the tally has taken.
    pub fn recorded(&self) -> (r: usize)
        ensures
            r == self@.recorded(),
            r <= self@.expected,
    {
        proof {
            use_type_invariant(self);
        }
        self.success_count + self.skipped_count + self.failed_count
    }

    /// How many outcomes the tally expects.
    pub fn expected(&self) -> (r: usize)
        ensures
            r == self@.expected,
    {
        self.expected
    }

    /// Whether every expected outcome has been taken.
    pub fn is_complete(&self) -> (r: bool)
        ensures
            r == (self@.recorded() == self@.expected),
    {
        proof {
            use_type_invariant(self);
        }
        self.success_count + self.skipped_count + self.failed_count == self.expected
    }

    /// The summary of a complete run that took `elapsed_seconds`; none while
    /// outcomes are still missing.
    pub fn summary(&self, elapsed_seconds: u64) -> (r: Option<Summary>)
        ensures
            match r {
                Some(summary) => {
                    &&& self@.recorded() == self@.expected
                    &&& summary.success_count == self@.success_count
                    &&& summary.skipped_count == self@.skipped_count
                    &&& summary.failed_count == self@.failed_count
                    &&& summary.elapsed_seconds == elapsed_seconds
                    &&& summary.total() == self@.expected
                },
                None => self@.recorded() != self@.expected,
            },
    {
        if self.is_complete() {
            Some(
                Summary {
                    success_count: self.success_count,
                    skipped_count: self.skipped_count,
                    failed_count: self.failed_count,
                    elapsed_seconds,
                },
            )
        } else {
            None
        }
    }
}

/// The tally after it has taken the outcomes of `outcomes`, in order.
pub open spec fn tally_after(tally: TallyView, outcomes: Seq<Outcome>) -> TallyView
    decreases outcomes.len(),
{
    if outcomes.len() == 0 {
        tally
    } else {
        tally_after(tally, outcomes.drop_last()).with(outcomes.last())
    }
}

/// A tally that expects as many outcomes as it is given counts each of them:
/// it ends with the counts of the three kinds, whose sum is the number of
/// outcomes.
pub proof fn law_tally_counts_every_outcome(expected: nat, outcomes: Seq<Outcome>)
    requires
        outcomes.len() <= expected,
    ensures
        tally_after(
            TallyView { expected, success_count: 0, skipped_count: 0, failed_count: 0 },
            outcomes,
        ) == (TallyView {
            expected,
            success_count: successes(outcomes),
            skipped_count: skips(outcomes),
            failed_count: failures(outcomes),
        }),
        successes(outcomes) + skips(outcomes) + failures(outcomes) == outcomes.len(),
    decreases outcomes.len(),
{
    lemma_counts_add_up(outcomes);
    if outcomes.len() > 0 {
        law_tally_counts_every_outcome(expected, outcomes.drop_last());
        lemma_counts_add_up(outcomes.drop_last());
    }
}

/// The order in which tasks complete does not show in the tally: the same
/// outcomes, taken in another order, give the same tally. So a run gives the
/// same summary with one worker as with many.
pub proof fn law_tally_ignores_order(expected: nat, a: Seq<Outcome>, b: Seq<Outcome>)
    requires
        a.to_multiset() == b.to_multiset(),
        a.len() <= expected,
    ensures
        tally_after(TallyView { expected, success_count: 0, skipped_count: 0, failed_count: 0 }, a)
            == tally_after(
            TallyView { expected, success_count: 0, skipped_count: 0, failed_count: 0 },
            b,
        ),
{
    a.to_multiset_ensures();
    b.to_multiset_ensures();
    lemma_counts_ignore_order(a, b);
    law_tally_counts_every_outcome(expected, a);
    law_tally_counts_every_outcome(expected, b);
}

} // verus!

//! The dispatch engine's decision core: the emission policy, the per-entry
//! step each worker runs, and the whole-scan model.
//!
//! A scan distributes the wordlist entries over up to `concurrency` workers.
//! Each worker probes its entry, then runs [`process_outcome`]; the outside
//! work (the HTTP request) sits between the verified pieces, so the engine is
//! given each probe's outcome as a value. [`run_scan`] is the whole engine for
//! a fixed sequence of outcomes — exactly the `concurrency == 1` schedule —
//! and pins what every schedule must produce: one progress increment per
//! entry, one completion report, and the emitted lines of the policy. Other
//! schedules reorder completion only; the order-independence law in this
//! module says the emitted lines then stay the same as a multiset.

use vstd::prelude::*;

use crate::classify::spec_classify;
use crate::collector::ResultCollector;
use crate::line::format_line;
use crate::line::lines_view;
use crate::line::spec_line;
use crate::outcome::OutcomeModel;
use crate::outcome::ProbeOutcome;
use crate::progress::ProgressCounter;

verus! {

/// Whether one outcome produces a result line: a failure only under `verbose`;
/// a response under `verbose` or when its classification is relevant.
pub open spec fn spec_should_emit(outcome: OutcomeModel, verbose: bool) -> bool {
    match outcome {
        OutcomeModel::Response { status, .. } => verbose || spec_classify(status).is_relevant,
        OutcomeModel::Failure { .. } => verbose,
    }
}

/// The line one entry contributes, if any: the formatted result line exactly
/// when the policy says to emit.
pub open spec fn spec_emit(entry: Seq<char>, outcome: OutcomeModel, verbose: bool) -> Option<
    Seq<char>,
> {
    if spec_should_emit(outcome, verbose) {
        Some(spec_line(entry, outcome))
    } else {
        None
    }
}

/// Decide whether one outcome produces a result line.
pub fn should_emit(outcome: &ProbeOutcome, verbose: bool) -> (r: bool)
    ensures
        r == spec_should_emit(outcome@, verbose),
{
    match outcome {
        ProbeOutcome::Response { status, .. } => {
            verbose || crate::classify::classify(*status).is_relevant
        },
        ProbeOutcome::Failure { .. } => verbose,
    }
}

/// The per-entry step a worker runs after its probe returns: apply the
/// emission policy and, when it says to emit, format the result line.
pub fn process_outcome(entry: &str, outcome: &ProbeOutcome, verbose: bool) -> (r: Option<String>)
    ensures
        r is Some <==> spec_should_emit(outcome@, verbose),
        r matches Some(line) ==> line@ == spec_line(entry@, outcome@),
{
    if should_emit(outcome, verbose) {
        Some(format_line(entry, outcome))
    } else {
        None
    }
}

/// One scan item: an entry's characters paired with its probe's outcome.
pub open spec fn spec_items(entries: Seq<String>, outcomes: Seq<ProbeOutcome>) -> Seq<
    (Seq<char>, OutcomeModel),
>
    recommends
        entries.len() == outcomes.len(),
{
    Seq::new(entries.len(), |i: int| (entries[i]@, outcomes[i]@))
}

/// The lines a scan emits for `items`, in item order.
pub open spec fn spec_emitted(items: Seq<(Seq<char>, OutcomeModel)>, verbose: bool) -> Seq<
    Seq<char>,
>
    decreases items.len(),
{
    if items.len() == 0 {
        Seq::empty()
    } else {
        let rest = spec_emitted(items.drop_last(), verbose);
        match spec_emit(items.last().0, items.last().1, verbose) {
            Some(line) => rest.push(line),
            None => rest,
        }
    }
}

/// What a completed scan reports: every emitted line in completion order, the
/// lines kept for persistence (all of the emitted ones when an output path was
/// configured, none otherwise), the number of entries processed, and the
/// completion signal.
pub struct ScanReport {
    pub emitted: Vec<String>,
    pub collected: Vec<String>,
    pub processed: usize,
    pub completed: bool,
}

/// Run a whole scan over entries whose probes produced `outcomes`, pairing
/// each entry with the outcome at its index. This is the engine under the
/// sequential schedule: every entry is processed exactly once, the progress
/// count reaches exactly the number of entries, completion is reported exactly
/// once, and the emitted lines are exactly those of the emission policy.
/// Lines are kept for persistence only when `keep_for_output` is set.
pub fn run_scan(
    entries: &Vec<String>,
    outcomes: &Vec<ProbeOutcome>,
    verbose: bool,
    keep_for_output: bool,
) -> (r: ScanReport)
    requires
        entries@.len() == outcomes@.len(),
    ensures
        r.processed == entries@.len(),
        r.completed,
        lines_view(r.emitted@) == spec_emitted(spec_items(entries@, outcomes@), verbose),
        lines_view(r.collected@) == if keep_for_output {
            spec_emitted(spec_items(entries@, outcomes@), verbose)
        } else {
            Seq::<Seq<char>>::empty()
        },
{
    let ghost items = spec_items(entries@, outcomes@);
    let total = entries.len();
    let mut progress = ProgressCounter::new(total);
    let mut collector = ResultCollector::new();
    let mut emitted: Vec<String> = Vec::new();
    let mut i: usize = 0;
    proof {
        assert(lines_view(emitted@) =~= Seq::<Seq<char>>::empty());
        assert(items.subrange(0, 0) =~= Seq::<(Seq<char>, OutcomeModel)>::empty());
    }
    while i < total
        invariant
            i <= total,
            total == entries@.len() == outcomes@.len(),
            items == spec_items(entries@, outcomes@),
            progress.wf(),
            progress.processed() == i,
            progress.total() == total,
            !progress.finished(),
            lines_view(emitted@) == spec_emitted(items.subrange(0, i as int), verbose),
            collector@ == if keep_for_output {
                spec_emitted(items.subrange(0, i as int), verbose)
            } else {
                Seq::<Seq<char>>::empty()
            },
        decreases total - i,
    {
        let ghost done = items.subrange(0, i as int);
        let entry = &entries[i];
        let outcome = &outcomes[i];
        match process_outcome(entry.as_str(), outcome, verbose) {
            Some(line) => {
                if keep_for_output {
                    collector.append(line.clone());
                }
                emitted.push(line);
                proof {
                    assert(lines_view(emitted@) =~= lines_view(emitted@.drop_last()).push(
                        emitted@.last()@,
                    ));
                }
            },
            None => {},
        }
        proof {
            let step = items.subrange(0, i + 1);
            assert(step.drop_last() =~= done);
            assert(step.last() == (entries@[i as int]@, outcomes@[i as int]@));
        }
        progress.increment();
        i = i + 1;
    }
    proof {
        assert(items.subrange(0, total as int) =~= items);
    }
    progress.finish();
    let processed = progress.count();
    let collected = collector.drain();
    ScanReport { emitted, collected, processed, completed: true }
}

/// Under `verbose`, every entry — success, redirect, or failure — produces
/// exactly one emitted line: the scan emits the result line of each item, in
/// item order.
pub proof fn lemma_verbose_emits_every_entry(items: Seq<(Seq<char>, OutcomeModel)>)
    ensures
        spec_emitted(items, true).len() == items.len(),
        spec_emitted(items, true) == Seq::new(
            items.len(),
            |i: int| spec_line(items[i].0, items[i].1),
        ),
    decreases items.len(),
{
    let all = Seq::new(items.len(), |i: int| spec_line(items[i].0, items[i].1));
    if items.len() > 0 {
        lemma_verbose_emits_every_entry(items.drop_last());
        let front = Seq::new(
            items.drop_last().len(),
            |i: int| spec_line(items.drop_last()[i].0, items.drop_last()[i].1),
        );
        assert(all =~= front.push(spec_line(items.last().0, items.last().1)));
    } else {
        assert(spec_emitted(items, true) =~= all);
    }
}

/// When no item's outcome passes the emission policy, the scan emits no line
/// at all — in particular, without `verbose`, a scan seeing only irrelevant
/// responses emits and collects nothing.
pub proof fn lemma_nothing_relevant_emits_nothing(
    items: Seq<(Seq<char>, OutcomeModel)>,
    verbose: bool,
)
    requires
        forall|i: int| 0 <= i < items.len() ==> !spec_should_emit(items[i].1, verbose),
    ensures
        spec_emitted(items, verbose) == Seq::<Seq<char>>::empty(),
    decreases items.len(),
{
    if items.len() > 0 {
        lemma_nothing_relevant_emits_nothing(items.drop_last(), verbose);
    }
}

/// Emission distributes over concatenation of the item sequence.
pub proof fn lemma_emitted_concat(
    a: Seq<(Seq<char>, OutcomeModel)>,
    b: Seq<(Seq<char>, OutcomeModel)>,
    verbose: bool,
)
    ensures
        spec_emitted(a + b, verbose) == spec_emitted(a, verbose) + spec_emitted(b, verbose),
    decreases b.len(),
{
    if b.len() == 0 {
        assert(a + b =~= a);
        assert(spec_emitted(a, verbose) + spec_emitted(b, verbose) =~= spec_emitted(a, verbose));
    } else {
        lemma_emitted_concat(a, b.drop_last(), verbose);
        assert((a + b).drop_last() =~= a + b.drop_last());
        assert((a + b).last() == b.last());
        match spec_emit(b.last().0, b.last().1, verbose) {
            Some(line) => {
                assert(spec_emitted(a, verbose) + spec_emitted(b.drop_last(), verbose).push(line)
                    =~= (spec_emitted(a, verbose) + spec_emitted(b.drop_last(), verbose)).push(
                    line,
                ));
            },
            None => {},
        }
    }
}

/// Scheduling changes the completion order only: any two scans over the same
/// items — however the items are reordered, as under different concurrency —
/// emit the same lines as a multiset, losing none and duplicating none.
pub proof fn lemma_emitted_order_independent(
    items1: Seq<(Seq<char>, OutcomeModel)>,
    items2: Seq<(Seq<char>, OutcomeModel)>,
    verbose: bool,
)
    requires
        items1.to_multiset() == items2.to_multiset(),
    ensures
        spec_emitted(items1, verbose).to_multiset() == spec_emitted(items2, verbose).to_multiset(),
    decreases items1.len(),
{
    broadcast use vstd::seq_lib::group_to_multiset_ensures;
    broadcast use vstd::multiset::group_multiset_axioms;

    if items1.len() == 0 {
        assert(items2.to_multiset().len() == 0);
        assert(items2.len() == 0);
    } else {
        let x = items1.last();
        let n = items1.len() as int;
        assert(items1[n - 1] == x);
        assert(items1.contains(x));
        assert(items1.to_multiset().count(x) > 0);
        assert(items2.to_multiset().count(x) > 0);
        assert(items2.contains(x));
        let j = choose|j: int| 0 <= j < items2.len() && items2[j] == x;
        let a = items2.subrange(0, j);
        let b = items2.subrange(j + 1, items2.len() as int);
        let one = seq![x];

        assert(items1.drop_last() =~= items1.remove(n - 1));
        assert(items1.drop_last().to_multiset() == items1.to_multiset().remove(x));
        assert(items2.remove(j) =~= a + b);
        assert((a + b).to_multiset() == items2.to_multiset().remove(x));
        lemma_emitted_order_independent(items1.drop_last(), a + b, verbose);

        // The lines of items1 are those of its front plus the line of x.
        assert(items1 =~= items1.drop_last() + one);
        lemma_emitted_concat(items1.drop_last(), one, verbose);
        // The lines of items2 are those of a, of x, and of b.
        assert(items2 =~= (a + one) + b);
        lemma_emitted_concat(a + one, b, verbose);
        lemma_emitted_concat(a, one, verbose);
        lemma_emitted_concat(a, b, verbose);

        let ea = spec_emitted(a, verbose);
        let eb = spec_emitted(b, verbose);
        let ex = spec_emitted(one, verbose);
        vstd::seq_lib::lemma_multiset_commutative(ea + ex, eb);
        vstd::seq_lib::lemma_multiset_commutative(ea, ex);
        vstd::seq_lib::lemma_multiset_commutative(ea, eb);
        vstd::seq_lib::lemma_multiset_commutative(
            spec_emitted(items1.drop_last(), verbose),
            ex,
        );
        assert(spec_emitted(items2, verbose).to_multiset() =~= spec_emitted(a + b, verbose)
            .to_multiset().add(ex.to_multiset()));
        assert(spec_emitted(items1, verbose).to_multiset() =~= spec_emitted(
            items1.drop_last(),
            verbose,
        ).to_multiset().add(ex.to_multiset()));
    }
}

} // verus!

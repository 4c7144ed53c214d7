//! One batch of rejection sampling.
//!
//! A worker samples in batches. Within a batch it draws a candidate, asks
//! the caller's evaluator what is found there, judges, and goes on until
//! the batch is over or the worker is told to stop. Between batches the
//! caller may look at its cancellation flag. How many batches it takes is
//! not bounded: a worker draws until its share is complete.

use vstd::prelude::*;
use crate::accumulator::{
    lemma_books_are_kept, lemma_step_keeps_inv, Accumulator, Candidate, Directive, Ledger, BATCH,
};
use crate::draw::{draw, verdict_of, Draw, Evaluation};

verus! {

/// The ledger after a run of reports, taken in order.
pub open spec fn after<P>(ledger: Ledger<P>, reports: Seq<Candidate<P>>) -> Ledger<P>
    decreases reports.len(),
{
    if reports.len() == 0 {
        ledger
    } else {
        after(ledger, reports.drop_last()).step(reports.last())
    }
}

/// The verdicts on a run of draws, given what was found at each.
pub open spec fn reports_of<P>(draws: Seq<Draw>, found: Seq<(P, Evaluation)>) -> Seq<Candidate<P>> {
    Seq::new(
        draws.len(),
        |i: int| verdict_of(draws[i].threshold as int, found[i].0, found[i].1),
    )
}

/// Whether `found` is what `evaluate` can have answered to `draws`: one
/// answer for each draw, every draw inside the domain.
pub open spec fn explains<P, F: Fn(Draw) -> (P, Evaluation)>(
    evaluate: F,
    draws: Seq<Draw>,
    found: Seq<(P, Evaluation)>,
) -> bool {
    &&& draws.len() == found.len()
    &&& forall|i: int|
        0 <= i < draws.len() ==> (#[trigger] draws[i]).in_domain() && call_ensures(
            evaluate,
            (draws[i],),
            found[i],
        )
}

/// Whether the worker went from `before` to `now` by the reports of one
/// batch: at most `BATCH` candidates were drawn inside the domain,
/// evaluated and judged, and the batch ended early only because the worker
/// had nothing more to draw.
pub open spec fn batch_ran<P, F: Fn(Draw) -> (P, Evaluation)>(
    evaluate: F,
    before: Ledger<P>,
    now: Ledger<P>,
) -> bool {
    exists|draws: Seq<Draw>, found: Seq<(P, Evaluation)>|
        {
            &&& #[trigger] explains(evaluate, draws, found)
            &&& draws.len() <= BATCH
            &&& now == after(before, reports_of(draws, found))
            &&& draws.len() == BATCH || now.directive(false) != Directive::Draw
        }
}

/// Runs one batch for `worker`: up to `BATCH` times it draws a candidate
/// with `rng`, hands it to `evaluate`, and judges what comes back. It
/// stops early when the share is complete or evaluation has failed, and
/// says what the worker is to do next.
pub fn run_batch<P, F: Fn(Draw) -> (P, Evaluation)>(
    worker: &mut Accumulator<P>,
    rng: &mut rand::rngs::StdRng,
    evaluate: F,
) -> (directive: Directive)
    requires
        forall|d: Draw| d.in_domain() ==> call_requires(evaluate, (d,)),
    ensures
        batch_ran(evaluate, old(worker)@, final(worker)@),
        directive == final(worker)@.directive(false),
        final(worker)@.inv(),
        final(worker).wf(),
{
    let ghost before = worker@;
    let ghost mut draws: Seq<Draw> = Seq::empty();
    let ghost mut found: Seq<(P, Evaluation)> = Seq::empty();
    let mut directive = worker.directive(false);
    let mut done: u64 = 0;
    proof {
        assert(reports_of(draws, found) =~= Seq::<Candidate<P>>::empty());
    }
    while done < BATCH && matches!(directive, Directive::Draw)
        invariant
            done <= BATCH,
            draws.len() == done,
            explains(evaluate, draws, found),
            worker@ == after(before, reports_of(draws, found)),
            directive == worker@.directive(false),
            forall|d: Draw| d.in_domain() ==> call_requires(evaluate, (d,)),
        decreases BATCH - done,
    {
        let drawn = draw(rng);
        let (position, evaluation) = evaluate(drawn);
        proof {
            let earlier = reports_of(draws, found);
            draws = draws.push(drawn);
            found = found.push((position, evaluation));
            let reports = reports_of(draws, found);
            assert(reports.drop_last() =~= earlier);
            assert(reports.last() == verdict_of(drawn.threshold as int, position, evaluation));
        }
        directive = worker.judge(drawn.threshold, position, evaluation);
        done += 1;
    }
    proof {
        use_type_invariant(&*worker);
        lemma_books_are_kept(*worker);
    }
    directive
}

/// A run of reports keeps a reachable ledger reachable. It never changes
/// the share that is owed, never takes an accepted point back, and never
/// lets the worker hold more than its share.
pub proof fn lemma_after_extends<P>(ledger: Ledger<P>, reports: Seq<Candidate<P>>)
    requires
        ledger.inv(),
    ensures
        after(ledger, reports).inv(),
        after(ledger, reports).target == ledger.target,
        ledger.accepted.is_prefix_of(after(ledger, reports).accepted),
        after(ledger, reports).accepted.len() <= ledger.target,
        ledger.attempts <= after(ledger, reports).attempts <= ledger.attempts + reports.len(),
    decreases reports.len(),
{
    if reports.len() > 0 {
        let earlier = after(ledger, reports.drop_last());
        lemma_after_extends(ledger, reports.drop_last());
        lemma_step_keeps_inv(earlier, reports.last());
        let next = earlier.step(reports.last());
        assert(earlier.accepted.is_prefix_of(next.accepted));
        assert(ledger.accepted.is_prefix_of(next.accepted));
    }
}

/// A worker that runs batches until it is told to finish holds exactly its
/// share, with every point it had before still in place.
pub proof fn lemma_batches_end_exact<P, F: Fn(Draw) -> (P, Evaluation)>(
    evaluate: F,
    before: Ledger<P>,
    now: Ledger<P>,
)
    requires
        before.inv(),
        batch_ran(evaluate, before, now),
    ensures
        now.inv(),
        now.target == before.target,
        before.accepted.is_prefix_of(now.accepted),
        now.directive(false) == Directive::Finish ==> now.accepted.len() == before.target,
{
    let (draws, found) = choose|draws: Seq<Draw>, found: Seq<(P, Evaluation)>|
        {
            &&& #[trigger] explains(evaluate, draws, found)
            &&& draws.len() <= BATCH
            &&& now == after(before, reports_of(draws, found))
            &&& draws.len() == BATCH || now.directive(false) != Directive::Draw
        };
    lemma_after_extends(before, reports_of(draws, found));
}

} // verus!

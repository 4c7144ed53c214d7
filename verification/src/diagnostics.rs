//! How hard a generation had to work.

use vstd::prelude::*;
use crate::accumulator::{ledgers_of, Accumulator, Ledger};

verus! {

/// The candidates that a list of workers drew together.
pub open spec fn attempts_of<P>(ledgers: Seq<Ledger<P>>) -> nat
    decreases ledgers.len(),
{
    if ledgers.len() == 0 {
        0
    } else {
        attempts_of(ledgers.drop_last()) + ledgers.last().attempts
    }
}

/// The points that a list of workers accepted together.
pub open spec fn accepted_of<P>(ledgers: Seq<Ledger<P>>) -> nat
    decreases ledgers.len(),
{
    if ledgers.len() == 0 {
        0
    } else {
        accepted_of(ledgers.drop_last()) + ledgers.last().accepted.len()
    }
}

/// A count as the 64 bits of a counter hold it: itself, or the largest
/// value of the counter if it is too large.
pub open spec fn capped(count: nat) -> nat {
    if count > u64::MAX {
        u64::MAX as nat
    } else {
        count
    }
}

/// Accepted points per thousand attempts, rounded down; zero where there
/// was no attempt.
pub open spec fn rate_per_mille(accepted: nat, attempts: nat) -> int {
    if attempts == 0 {
        0
    } else {
        (accepted * 1000) as int / (attempts as int)
    }
}

/// The totals of a generation.
#[derive(Clone, Copy, Debug, PartialEq, Eq, Structural)]
pub struct Diagnostics {
    /// The points accepted by all workers together.
    pub accepted: u64,
    /// The candidates drawn by all workers together.
    pub attempts: u64,
}

impl Diagnostics {
    /// The acceptance rate of the whole generation, in accepted points
    /// per thousand attempts. A total that claims more acceptances than
    /// attempts is read as a rate of a thousand.
    pub fn acceptance_per_mille(&self) -> (rate: u32)
        ensures
            self.accepted <= self.attempts ==> rate == rate_per_mille(
                self.accepted as nat,
                self.attempts as nat,
            ),
            self.accepted > self.attempts ==> rate == 1000,
            rate <= 1000,
    {
        if self.accepted > self.attempts {
            1000
        } else if self.attempts == 0 {
            0
        } else {
            let accepted: u128 = self.accepted as u128;
            let attempts: u128 = self.attempts as u128;
            assert((accepted * 1000) as int / (attempts as int) <= 1000) by (nonlinear_arith)
                requires
                    0 <= accepted <= attempts,
                    attempts > 0,
            ;
            (accepted * 1000 / attempts) as u32
        }
    }
}

/// Adds up the books of the workers. The totals stop at the largest value
/// of their counters rather than wrap.
pub fn diagnostics<P>(workers: &Vec<Accumulator<P>>) -> (totals: Diagnostics)
    ensures
        totals.accepted == capped(accepted_of(ledgers_of(workers@))),
        totals.attempts == capped(attempts_of(ledgers_of(workers@))),
        totals.accepted <= totals.attempts,
{
    let ghost ledgers = ledgers_of(workers@);
    let mut accepted: u64 = 0;
    let mut attempts: u64 = 0;
    let mut i: usize = 0;
    assert(ledgers.take(0) =~= Seq::<Ledger<P>>::empty());
    while i < workers.len()
        invariant
            i <= workers@.len(),
            ledgers == ledgers_of(workers@),
            accepted == capped(accepted_of(ledgers.take(i as int))),
            attempts == capped(attempts_of(ledgers.take(i as int))),
            accepted_of(ledgers.take(i as int)) <= attempts_of(ledgers.take(i as int)),
        decreases workers@.len() - i,
    {
        let worker = &workers[i];
        let more_accepted: usize = worker.accepted();
        let more_attempts: u64 = worker.attempts();
        proof {
            assert(ledgers.take(i + 1).drop_last() =~= ledgers.take(i as int));
            assert(ledgers.take(i + 1).last() == worker@);
        }
        accepted = accepted.saturating_add(more_accepted as u64);
        attempts = attempts.saturating_add(more_attempts);
        i += 1;
    }
    assert(ledgers.take(i as int) =~= ledgers);
    Diagnostics { accepted, attempts }
}

} // verus!

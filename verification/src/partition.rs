//! Splitting a request over a fixed pool of workers.

use vstd::prelude::*;
use vstd::arithmetic::div_mod::{lemma_fundamental_div_mod, lemma_mod_bound};

verus! {

/// What worker `index` of `workers` has to deliver of `count` particles:
/// an even share, and one more for the first `count % workers` workers.
pub open spec fn share_of(count: int, workers: int, index: int) -> int {
    count / workers + if index < count % workers {
        1int
    } else {
        0int
    }
}

/// What the first `k` workers have to deliver together.
pub open spec fn shares_before(count: int, workers: int, k: nat) -> int
    decreases k,
{
    if k == 0 {
        0
    } else {
        shares_before(count, workers, (k - 1) as nat) + share_of(count, workers, k - 1)
    }
}

/// The sum of a list of shares.
pub open spec fn total(shares: Seq<usize>) -> int
    decreases shares.len(),
{
    if shares.len() == 0 {
        0
    } else {
        total(shares.drop_last()) + shares.last()
    }
}

/// The first `k` shares in closed form.
pub proof fn lemma_shares_before(count: int, workers: int, k: nat)
    requires
        0 <= count,
        0 < workers,
        k <= workers,
    ensures
        shares_before(count, workers, k) == k * (count / workers) + if k < count % workers {
            k as int
        } else {
            count % workers
        },
    decreases k,
{
    lemma_mod_bound(count, workers);
    if k > 0 {
        lemma_shares_before(count, workers, (k - 1) as nat);
        assert(k * (count / workers) == (k - 1) * (count / workers) + count / workers)
            by (nonlinear_arith);
    } else {
        assert(0 * (count / workers) == 0);
    }
}

/// Nothing is lost and nothing is made up: the shares of all workers sum
/// to the request.
pub proof fn lemma_shares_cover(count: int, workers: int)
    requires
        0 <= count,
        0 < workers,
    ensures
        shares_before(count, workers, workers as nat) == count,
{
    lemma_shares_before(count, workers, workers as nat);
    lemma_mod_bound(count, workers);
    lemma_fundamental_div_mod(count, workers);
}

/// The split is even: no share is negative, and any two differ by at
/// most one.
pub proof fn lemma_shares_balanced(count: int, workers: int, i: int, j: int)
    requires
        0 <= count,
        0 < workers,
    ensures
        0 <= share_of(count, workers, i),
        share_of(count, workers, i) - share_of(count, workers, j) <= 1,
        i <= j ==> share_of(count, workers, i) >= share_of(count, workers, j),
{
    lemma_fundamental_div_mod(count, workers);
    lemma_mod_bound(count, workers);
    assert(count / workers >= 0) by (nonlinear_arith)
        requires
            0 <= count,
            0 < workers,
    ;
}

/// A list that holds the shares in order sums to what the first so many
/// workers owe.
pub proof fn lemma_total_of_shares(shares: Seq<usize>, count: int, workers: int)
    requires
        forall|i: int| 0 <= i < shares.len() ==> shares[i] == share_of(count, workers, i),
    ensures
        total(shares) == shares_before(count, workers, shares.len()),
    decreases shares.len(),
{
    if shares.len() > 0 {
        lemma_total_of_shares(shares.drop_last(), count, workers);
    }
}

/// Splits `count` particles over `workers` workers.
pub fn worker_shares(count: usize, workers: usize) -> (shares: Vec<usize>)
    requires
        workers > 0,
    ensures
        shares@.len() == workers,
        forall|i: int|
            0 <= i < workers ==> (#[trigger] shares@[i]) == share_of(
                count as int,
                workers as int,
                i,
            ),
        total(shares@) == count,
{
    let even: usize = count / workers;
    let extra: usize = count % workers;
    let mut shares: Vec<usize> = Vec::new();
    let mut index: usize = 0;
    proof {
        lemma_fundamental_div_mod(count as int, workers as int);
        assert(workers * even >= even) by (nonlinear_arith)
            requires
                workers >= 1,
                even >= 0,
        ;
    }
    while index < workers
        invariant
            index <= workers,
            even == count / workers,
            extra == count % workers,
            extra > 0 ==> even < usize::MAX,
            shares@.len() == index,
            forall|i: int|
                0 <= i < index ==> (#[trigger] shares@[i]) == share_of(
                    count as int,
                    workers as int,
                    i,
                ),
        decreases workers - index,
    {
        let share: usize = if index < extra {
            even + 1
        } else {
            even
        };
        shares.push(share);
        index += 1;
    }
    proof {
        lemma_total_of_shares(shares@, count as int, workers as int);
        lemma_shares_cover(count as int, workers as int);
    }
    shares
}

} // verus!

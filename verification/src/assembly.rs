//! Joining the workers' buffers into one particle set.
//!
//! The last step of a generation runs on one thread: the accumulators of
//! the workers are taken in order, and their points are laid end to end.
//! A set comes out only if every worker is complete and the points are
//! exactly as many as were asked for.

use vstd::prelude::*;
use crate::accumulator::{ledgers_of, Accumulator, Ledger};
use crate::error::GenerationError;
use crate::particle::{all_visible, Particle, ParticleSet};
use crate::partition::{lemma_shares_cover, share_of, shares_before};

verus! {

/// The points of a list of workers, laid end to end.
pub open spec fn joined<P>(ledgers: Seq<Ledger<P>>) -> Seq<Particle<P>>
    decreases ledgers.len(),
{
    if ledgers.len() == 0 {
        Seq::empty()
    } else {
        joined(ledgers.drop_last()) + ledgers.last().accepted
    }
}

/// What an assembly that holds `held` of `requested` points holds after
/// it is offered one worker. An unfinished worker is refused with its own
/// reason; one that would overfill the set is refused as a surplus.
pub open spec fn absorbed<P>(
    requested: nat,
    held: Seq<Particle<P>>,
    ledger: Ledger<P>,
    cancelled: bool,
) -> Result<Seq<Particle<P>>, GenerationError> {
    match ledger.harvest(cancelled) {
        Err(e) => Err(e),
        Ok(points) => if held.len() + points.len() > requested {
            Err(GenerationError::Surplus)
        } else {
            Ok(held + points)
        },
    }
}

/// What an empty assembly holds after it is offered the workers in order,
/// or the reason for which the first of them was refused.
pub open spec fn gathered<P>(requested: nat, ledgers: Seq<Ledger<P>>, cancelled: bool) -> Result<
    Seq<Particle<P>>,
    GenerationError,
>
    decreases ledgers.len(),
{
    if ledgers.len() == 0 {
        Ok(Seq::empty())
    } else {
        match gathered(requested, ledgers.drop_last(), cancelled) {
            Err(e) => Err(e),
            Ok(held) => absorbed(requested, held, ledgers.last(), cancelled),
        }
    }
}

/// The outcome of a whole join: the particles of the set, or the error.
pub open spec fn join_outcome<P>(
    requested: nat,
    ledgers: Seq<Ledger<P>>,
    cancelled: bool,
) -> Result<Seq<Particle<P>>, GenerationError> {
    if requested == 0 {
        Err(GenerationError::InvalidCount)
    } else {
        match gathered(requested, ledgers, cancelled) {
            Err(e) => Err(e),
            Ok(held) => if held.len() == requested {
                Ok(held)
            } else {
                Err(GenerationError::Incomplete)
            },
        }
    }
}

/// A particle set in the making.
pub struct Assembly<P> {
    requested: usize,
    particles: Vec<Particle<P>>,
}

impl<P> View for Assembly<P> {
    type V = Seq<Particle<P>>;

    closed spec fn view(&self) -> Seq<Particle<P>> {
        self.particles@
    }
}

impl<P> Assembly<P> {
    /// Holds of every assembly: the request is not empty, the assembly is
    /// not overfull, and every point in it can be seen.
    #[verifier::type_invariant]
    pub closed spec fn wf(self) -> bool {
        &&& self.requested > 0
        &&& self.particles@.len() <= self.requested
        &&& all_visible(self.particles@)
    }

    /// The number of particles that the request asked for.
    pub closed spec fn spec_requested(self) -> nat {
        self.requested as nat
    }

    /// An empty assembly for a request of `requested` particles. A request
    /// for none is refused.
    pub fn new(requested: usize) -> (made: Result<Self, GenerationError>)
        ensures
            made is Ok <==> requested > 0,
            made matches Ok(assembly) ==> assembly@ == Seq::<Particle<P>>::empty()
                && assembly.spec_requested() == requested && assembly.wf(),
            made matches Err(e) ==> e == GenerationError::InvalidCount,
    {
        if requested == 0 {
            Err(GenerationError::InvalidCount)
        } else {
            Ok(Assembly { requested, particles: Vec::new() })
        }
    }

    /// The number of points held so far.
    pub fn len(&self) -> (n: usize)
        ensures
            n == self@.len(),
            n <= self.spec_requested(),
    {
        proof {
            use_type_invariant(self);
        }
        self.particles.len()
    }

    /// The number of points still missing.
    pub fn missing(&self) -> (n: usize)
        ensures
            n == self.spec_requested() - self@.len(),
    {
        proof {
            use_type_invariant(self);
        }
        self.requested - self.particles.len()
    }

    /// Takes the points of one worker, given whether the request was
    /// withdrawn. A worker that is not complete is refused with its
    /// reason, and so is one whose points would overfill the set; the
    /// assembly is then as it was.
    pub fn absorb(&mut self, worker: Accumulator<P>, cancelled: bool) -> (done: Result<
        (),
        GenerationError,
    >)
        ensures
            final(self).spec_requested() == old(self).spec_requested(),
            final(self).wf(),
            done is Ok ==> absorbed(old(self).spec_requested(), old(self)@, worker@, cancelled)
                == Ok::<Seq<Particle<P>>, GenerationError>(final(self)@),
            done matches Err(e) ==> final(self)@ == old(self)@ && absorbed(
                old(self).spec_requested(),
                old(self)@,
                worker@,
                cancelled,
            ) == Err::<Seq<Particle<P>>, GenerationError>(e),
    {
        proof {
            use_type_invariant(&*self);
        }
        match worker.into_particles(cancelled) {
            Err(e) => Err(e),
            Ok(points) => {
                if points.len() > self.requested - self.particles.len() {
                    Err(GenerationError::Surplus)
                } else {
                    let mut points = points;
                    let mut kept: Vec<Particle<P>> = Vec::new();
                    core::mem::swap(&mut self.particles, &mut kept);
                    let ghost before = kept@;
                    let ghost added = points@;
                    kept.append(&mut points);
                    assert forall|i: int| 0 <= i < kept@.len() implies (
                    #[trigger] kept@[i]).color.visible() by {
                        if i < before.len() {
                            assert(kept@[i] == before[i]);
                        } else {
                            assert(kept@[i] == added[i - before.len()]);
                        }
                    }
                    core::mem::swap(&mut self.particles, &mut kept);
                    Ok(())
                }
            },
        }
    }

    /// Closes the assembly. A set comes out if and only if exactly the
    /// requested number of points is held.
    pub fn finish(self) -> (made: Result<ParticleSet<P>, GenerationError>)
        ensures
            made is Ok <==> self@.len() == self.spec_requested(),
            made matches Ok(set) ==> set@ == self@ && set.spec_requested()
                == self.spec_requested() && set.wf(),
            made matches Err(e) ==> e == GenerationError::Incomplete,
    {
        proof {
            use_type_invariant(&self);
        }
        if self.particles.len() == self.requested {
            Ok(ParticleSet::from_complete(self.particles, self.requested))
        } else {
            Err(GenerationError::Incomplete)
        }
    }
}

/// Joins the workers of a request for `requested` particles, in order,
/// given whether the request was withdrawn. The set holds the points of
/// the first worker, then those of the second, and so on. If a worker is
/// refused, or the points are too few at the end, no set is made.
pub fn join<P>(requested: usize, workers: Vec<Accumulator<P>>, cancelled: bool) -> (made: Result<
    ParticleSet<P>,
    GenerationError,
>)
    ensures
        made matches Ok(set) ==> join_outcome(requested as nat, ledgers_of(workers@), cancelled)
            == Ok::<Seq<Particle<P>>, GenerationError>(set@) && set.spec_requested() == requested
            && set.wf(),
        made matches Err(e) ==> join_outcome(requested as nat, ledgers_of(workers@), cancelled)
            == Err::<Seq<Particle<P>>, GenerationError>(e),
{
    let mut assembly: Assembly<P> = match Assembly::new(requested) {
        Ok(assembly) => assembly,
        Err(e) => {
            return Err(e);
        },
    };
    let ghost ledgers = ledgers_of(workers@);
    assert(ledgers.take(0) =~= Seq::<Ledger<P>>::empty());
    for worker in iter: workers.into_iter()
        invariant
            requested > 0,
            iter.seq() == workers@,
            ledgers == ledgers_of(workers@),
            assembly.spec_requested() == requested,
            gathered(requested as nat, ledgers.take(iter.index() as int), cancelled) == Ok::<
                Seq<Particle<P>>,
                GenerationError,
            >(assembly@),
    {
        let ghost i = iter.index() as int;
        proof {
            assert(ledgers.take(i + 1).drop_last() =~= ledgers.take(i));
            assert(ledgers.take(i + 1).last() == worker@);
        }
        match assembly.absorb(worker, cancelled) {
            Ok(()) => {},
            Err(e) => {
                proof {
                    lemma_gathered_error_stays(requested as nat, ledgers, cancelled, i + 1);
                }
                return Err(e);
            },
        }
    }
    proof {
        assert(ledgers.take(ledgers.len() as int) =~= ledgers);
    }
    assembly.finish()
}

/// Once a worker has been refused, the workers after it change nothing.
pub proof fn lemma_gathered_error_stays<P>(
    requested: nat,
    ledgers: Seq<Ledger<P>>,
    cancelled: bool,
    k: int,
)
    requires
        0 <= k <= ledgers.len(),
        gathered(requested, ledgers.take(k), cancelled) is Err,
    ensures
        gathered(requested, ledgers, cancelled) == gathered(requested, ledgers.take(k), cancelled),
    decreases ledgers.len(),
{
    if k == ledgers.len() {
        assert(ledgers.take(k) =~= ledgers);
    } else {
        assert(ledgers.drop_last().take(k) =~= ledgers.take(k));
        lemma_gathered_error_stays(requested, ledgers.drop_last(), cancelled, k);
    }
}

/// What was gathered is the workers' points laid end to end, every worker
/// was complete, and the set is not overfull.
pub proof fn lemma_gathered_ok<P>(requested: nat, ledgers: Seq<Ledger<P>>, cancelled: bool)
    requires
        gathered(requested, ledgers, cancelled) is Ok,
    ensures
        gathered(requested, ledgers, cancelled) == Ok::<Seq<Particle<P>>, GenerationError>(
            joined(ledgers),
        ),
        joined(ledgers).len() <= requested,
        forall|i: int| 0 <= i < ledgers.len() ==> (#[trigger] ledgers[i]).complete(),
    decreases ledgers.len(),
{
    if ledgers.len() > 0 {
        lemma_gathered_ok(requested, ledgers.drop_last(), cancelled);
        assert forall|i: int| 0 <= i < ledgers.len() implies (#[trigger] ledgers[i]).complete() by {
            if i < ledgers.len() - 1 {
                assert(ledgers[i] == ledgers.drop_last()[i]);
            }
        }
    }
}

/// Complete workers whose points fit are all gathered.
pub proof fn lemma_complete_workers_gather<P>(
    requested: nat,
    ledgers: Seq<Ledger<P>>,
    cancelled: bool,
)
    requires
        forall|i: int| 0 <= i < ledgers.len() ==> (#[trigger] ledgers[i]).complete(),
        joined(ledgers).len() <= requested,
    ensures
        gathered(requested, ledgers, cancelled) == Ok::<Seq<Particle<P>>, GenerationError>(
            joined(ledgers),
        ),
    decreases ledgers.len(),
{
    if ledgers.len() > 0 {
        assert forall|i: int| 0 <= i < ledgers.drop_last().len() implies (
        #[trigger] ledgers.drop_last()[i]).complete() by {
            assert(ledgers.drop_last()[i] == ledgers[i]);
        }
        lemma_complete_workers_gather(requested, ledgers.drop_last(), cancelled);
        assert(ledgers.last() == ledgers[ledgers.len() - 1]);
    }
}

/// When a join succeeds: if and only if something was asked for, every
/// worker is complete, and the workers' points are exactly as many as were
/// asked for. The set then holds those points, worker after worker.
/// Whether the request was withdrawn in the meantime makes no difference
/// to that.
pub proof fn lemma_join_succeeds_iff<P>(requested: nat, ledgers: Seq<Ledger<P>>, cancelled: bool)
    ensures
        join_outcome(requested, ledgers, cancelled) is Ok <==> {
            &&& requested > 0
            &&& forall|i: int| 0 <= i < ledgers.len() ==> (#[trigger] ledgers[i]).complete()
            &&& joined(ledgers).len() == requested
        },
        join_outcome(requested, ledgers, cancelled) matches Ok(points) ==> points == joined(
            ledgers,
        ) && points.len() == requested,
{
    if gathered(requested, ledgers, cancelled) is Ok {
        lemma_gathered_ok(requested, ledgers, cancelled);
    }
    if (forall|i: int| 0 <= i < ledgers.len() ==> (#[trigger] ledgers[i]).complete()) && joined(
        ledgers,
    ).len() == requested {
        lemma_complete_workers_gather(requested, ledgers, cancelled);
    }
}

/// The points of complete workers are as many as their shares together.
pub proof fn lemma_joined_len_of_shares<P>(ledgers: Seq<Ledger<P>>, count: int, workers: int)
    requires
        forall|i: int|
            0 <= i < ledgers.len() ==> (#[trigger] ledgers[i]).complete() && ledgers[i].target
                == share_of(count, workers, i),
    ensures
        joined(ledgers).len() == shares_before(count, workers, ledgers.len()),
    decreases ledgers.len(),
{
    if ledgers.len() > 0 {
        assert forall|i: int| 0 <= i < ledgers.drop_last().len() implies (
        #[trigger] ledgers.drop_last()[i]).complete() && ledgers.drop_last()[i].target == share_of(
            count,
            workers,
            i,
        ) by {
            assert(ledgers.drop_last()[i] == ledgers[i]);
        }
        lemma_joined_len_of_shares(ledgers.drop_last(), count, workers);
        assert(ledgers.last() == ledgers[ledgers.len() - 1]);
    }
}

/// However many workers share a request, if each completes its share the
/// join succeeds and the set has exactly the requested size.
pub proof fn lemma_complete_shares_fill_request<P>(
    count: nat,
    workers: nat,
    ledgers: Seq<Ledger<P>>,
    cancelled: bool,
)
    requires
        count > 0,
        workers > 0,
        ledgers.len() == workers,
        forall|i: int|
            0 <= i < workers ==> (#[trigger] ledgers[i]).complete() && ledgers[i].target
                == share_of(count as int, workers as int, i),
    ensures
        join_outcome(count, ledgers, cancelled) == Ok::<Seq<Particle<P>>, GenerationError>(
            joined(ledgers),
        ),
        joined(ledgers).len() == count,
{
    lemma_joined_len_of_shares(ledgers, count as int, workers as int);
    lemma_shares_cover(count as int, workers as int);
    lemma_join_succeeds_iff(count, ledgers, cancelled);
}

} // verus!

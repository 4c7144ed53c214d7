//! The books of one rejection-sampling worker.
//!
//! A worker draws candidate points, evaluates the density at each and
//! compares it with a random threshold under the envelope. It reports each
//! verdict here. The accumulator keeps the accepted points, counts the
//! attempts, and says after every report whether to go on.

use vstd::prelude::*;
use crate::color::{glow, glow_color};
use crate::draw::{verdict, verdict_of, Evaluation};
use crate::error::GenerationError;
use crate::particle::{all_visible, Particle};

verus! {

/// So many evaluations in a row that are not finite end a worker.
pub const NON_FINITE_LIMIT: u32 = 10_000;

/// A worker looks at the cancellation flag once in so many attempts.
pub const BATCH: u64 = 1024;

/// The attempt counter stops here rather than wrap.
pub const ATTEMPT_CEILING: u64 = u64::MAX;

/// The verdict on one candidate point.
pub enum Candidate<P> {
    /// The threshold fell below the density: the point joins the cloud.
    /// The density is given in parts per million of the envelope's bound.
    Accepted { position: P, density_ppm: u32 },
    /// The density was finite and the threshold did not fall below it.
    Rejected,
    /// The density came out as NaN or infinite: the point is rejected.
    NonFinite,
}

/// What a worker does next.
#[derive(Clone, Copy, Debug, PartialEq, Eq, Structural)]
pub enum Directive {
    /// Draw another candidate.
    Draw,
    /// The share is complete.
    Finish,
    /// Stop without a complete share, for the reason given.
    Abort(GenerationError),
}

/// The state of a worker, as mathematics sees it.
pub struct Ledger<P> {
    /// How many accepted points the worker owes.
    pub target: nat,
    /// The accepted points so far, oldest first.
    pub accepted: Seq<Particle<P>>,
    /// How many candidates were reported while the worker was running.
    pub attempts: nat,
    /// How many of the latest reports in a row were `NonFinite`.
    pub streak: nat,
}

impl<P> Ledger<P> {
    /// A worker that has not drawn yet.
    pub open spec fn start(target: nat) -> Ledger<P> {
        Ledger { target, accepted: Seq::empty(), attempts: 0, streak: 0 }
    }

    /// The worker has its full share.
    pub open spec fn complete(self) -> bool {
        self.accepted.len() == self.target
    }

    /// Evaluation has failed pervasively.
    pub open spec fn failed(self) -> bool {
        self.streak >= NON_FINITE_LIMIT
    }

    /// Nothing more is recorded: the worker is complete or has failed.
    pub open spec fn settled(self) -> bool {
        self.complete() || self.failed()
    }

    /// What holds of every reachable ledger.
    pub open spec fn inv(self) -> bool {
        &&& self.accepted.len() <= self.target <= usize::MAX
        &&& self.accepted.len() <= self.attempts <= ATTEMPT_CEILING
        &&& self.streak <= NON_FINITE_LIMIT
        &&& self.streak <= self.attempts
        &&& all_visible(self.accepted)
    }

    /// The attempt counter after one more attempt.
    pub open spec fn bump(attempts: nat) -> nat {
        if attempts < ATTEMPT_CEILING {
            attempts + 1
        } else {
            attempts
        }
    }

    /// The ledger after one report. A settled ledger does not change.
    pub open spec fn step(self, candidate: Candidate<P>) -> Ledger<P> {
        if self.settled() {
            self
        } else {
            match candidate {
                Candidate::Accepted { position, density_ppm } => Ledger {
                    target: self.target,
                    accepted: self.accepted.push(
                        Particle { position, color: glow_color(density_ppm as int) },
                    ),
                    attempts: Self::bump(self.attempts),
                    streak: 0,
                },
                Candidate::Rejected => Ledger {
                    target: self.target,
                    accepted: self.accepted,
                    attempts: Self::bump(self.attempts),
                    streak: 0,
                },
                Candidate::NonFinite => Ledger {
                    target: self.target,
                    accepted: self.accepted,
                    attempts: Self::bump(self.attempts),
                    streak: self.streak + 1,
                },
            }
        }
    }

    /// What the worker does next. A complete share wins over everything;
    /// a failure wins over a cancellation.
    pub open spec fn directive(self, cancelled: bool) -> Directive {
        if self.complete() {
            Directive::Finish
        } else if self.failed() {
            Directive::Abort(GenerationError::ComputationFailure)
        } else if cancelled {
            Directive::Abort(GenerationError::Cancelled)
        } else {
            Directive::Draw
        }
    }

    /// Accepted points per thousand attempts, rounded down; zero before
    /// the first attempt.
    pub open spec fn per_mille(self) -> int {
        if self.attempts == 0 {
            0
        } else {
            (self.accepted.len() * 1000) as int / (self.attempts as int)
        }
    }

    /// What the worker hands over when it stops: its points if the share
    /// is complete, else the reason why it is not. A worker that stopped
    /// short without failing, and without the request being withdrawn,
    /// has no reason: it is reported as incomplete.
    pub open spec fn harvest(self, cancelled: bool) -> Result<Seq<Particle<P>>, GenerationError> {
        match self.directive(cancelled) {
            Directive::Finish => Ok(self.accepted),
            Directive::Abort(reason) => Err(reason),
            Directive::Draw => Err(GenerationError::Incomplete),
        }
    }
}

/// The ledgers of a list of accumulators.
pub open spec fn ledgers_of<P>(workers: Seq<Accumulator<P>>) -> Seq<Ledger<P>> {
    workers.map_values(|w: Accumulator<P>| w@)
}

/// The books of one worker: its share, its accepted points, its attempts.
pub struct Accumulator<P> {
    target: usize,
    particles: Vec<Particle<P>>,
    attempts: u64,
    streak: u32,
}

impl<P> View for Accumulator<P> {
    type V = Ledger<P>;

    closed spec fn view(&self) -> Ledger<P> {
        Ledger {
            target: self.target as nat,
            accepted: self.particles@,
            attempts: self.attempts as nat,
            streak: self.streak as nat,
        }
    }
}

impl<P> Accumulator<P> {
    /// Holds of every accumulator: its ledger is a reachable one.
    #[verifier::type_invariant]
    pub closed spec fn wf(self) -> bool {
        self@.inv()
    }

    /// An accumulator for a share of `target` accepted points.
    pub fn new(target: usize) -> (fresh: Self)
        ensures
            fresh@ == Ledger::<P>::start(target as nat),
            fresh@.inv(),
            fresh.wf(),
    {
        Accumulator { target, particles: Vec::new(), attempts: 0, streak: 0 }
    }

    /// Records the verdict on one candidate and says what to do next. An
    /// accepted point is coloured by its density and kept. Once the share
    /// is complete, or evaluation has failed, reports change nothing.
    pub fn record(&mut self, candidate: Candidate<P>) -> (directive: Directive)
        ensures
            final(self)@ == old(self)@.step(candidate),
            directive == final(self)@.directive(false),
            final(self)@.inv(),
            final(self).wf(),
    {
        proof {
            use_type_invariant(&*self);
        }
        if self.particles.len() < self.target && self.streak < NON_FINITE_LIMIT {
            if self.attempts < ATTEMPT_CEILING {
                self.attempts = self.attempts + 1;
            }
            match candidate {
                Candidate::Accepted { position, density_ppm } => {
                    self.streak = 0;
                    let mut kept: Vec<Particle<P>> = Vec::new();
                    core::mem::swap(&mut self.particles, &mut kept);
                    kept.push(Particle { position, color: glow(density_ppm) });
                    core::mem::swap(&mut self.particles, &mut kept);
                },
                Candidate::Rejected => {
                    self.streak = 0;
                },
                Candidate::NonFinite => {
                    self.streak = self.streak + 1;
                },
            }
        }
        self.directive(false)
    }

    /// Judges a candidate and records what was found. The point at
    /// `position` is accepted if and only if its density is a number and
    /// `threshold` lies below it.
    pub fn judge(&mut self, threshold: u64, position: P, evaluation: Evaluation) -> (directive:
        Directive)
        ensures
            final(self)@ == old(self)@.step(verdict_of(threshold as int, position, evaluation)),
            directive == final(self)@.directive(false),
            final(self)@.inv(),
            final(self).wf(),
    {
        self.record(verdict(threshold, position, evaluation))
    }

    /// What to do next, given whether the caller has withdrawn the
    /// request.
    pub fn directive(&self, cancelled: bool) -> (directive: Directive)
        ensures
            directive == self@.directive(cancelled),
    {
        proof {
            use_type_invariant(self);
        }
        if self.particles.len() == self.target {
            Directive::Finish
        } else if self.streak >= NON_FINITE_LIMIT {
            Directive::Abort(GenerationError::ComputationFailure)
        } else if cancelled {
            Directive::Abort(GenerationError::Cancelled)
        } else {
            Directive::Draw
        }
    }

    /// Whether a batch of attempts has just ended, so that it is time to
    /// look at the cancellation flag.
    pub fn check_due(&self) -> (due: bool)
        ensures
            due == (self@.attempts % (BATCH as nat) == 0),
    {
        self.attempts % BATCH == 0
    }

    /// Whether the share is complete.
    pub fn is_complete(&self) -> (yes: bool)
        ensures
            yes == self@.complete(),
    {
        self.particles.len() == self.target
    }

    /// Whether evaluation has failed pervasively.
    pub fn has_failed(&self) -> (yes: bool)
        ensures
            yes == self@.failed(),
    {
        self.streak >= NON_FINITE_LIMIT
    }

    /// The share that this worker owes.
    pub fn target(&self) -> (n: usize)
        ensures
            n == self@.target,
    {
        self.target
    }

    /// The number of points accepted so far.
    pub fn accepted(&self) -> (n: usize)
        ensures
            n == self@.accepted.len(),
            n <= self@.target,
    {
        proof {
            use_type_invariant(self);
        }
        self.particles.len()
    }

    /// The number of points still owed.
    pub fn remaining(&self) -> (n: usize)
        ensures
            n == self@.target - self@.accepted.len(),
    {
        proof {
            use_type_invariant(self);
        }
        self.target - self.particles.len()
    }

    /// The number of candidates reported so far.
    pub fn attempts(&self) -> (n: u64)
        ensures
            n == self@.attempts,
            n >= self@.accepted.len(),
    {
        proof {
            use_type_invariant(self);
        }
        self.attempts
    }

    /// The acceptance rate so far, in accepted points per thousand
    /// attempts.
    pub fn acceptance_per_mille(&self) -> (rate: u32)
        ensures
            rate == self@.per_mille(),
            rate <= 1000,
    {
        proof {
            use_type_invariant(self);
        }
        if self.attempts == 0 {
            0
        } else {
            let accepted: u128 = self.particles.len() as u128;
            let attempts: u128 = self.attempts as u128;
            assert((accepted * 1000) as int / (attempts as int) <= 1000) by (nonlinear_arith)
                requires
                    0 <= accepted <= attempts,
                    attempts > 0,
            ;
            (accepted * 1000 / attempts) as u32
        }
    }

    /// Ends the worker, given whether the request was withdrawn. It hands
    /// over its points if the share is complete; a short share is never
    /// handed over.
    pub fn into_particles(self, cancelled: bool) -> (harvest: Result<
        Vec<Particle<P>>,
        GenerationError,
    >)
        ensures
            harvest is Ok <==> self@.complete(),
            harvest matches Ok(particles) ==> self@.harvest(cancelled) == Ok::<
                Seq<Particle<P>>,
                GenerationError,
            >(particles@) && all_visible(particles@),
            harvest matches Err(e) ==> self@.harvest(cancelled) == Err::<
                Seq<Particle<P>>,
                GenerationError,
            >(e),
    {
        proof {
            use_type_invariant(&self);
        }
        if self.particles.len() == self.target {
            Ok(self.particles)
        } else if self.streak >= NON_FINITE_LIMIT {
            Err(GenerationError::ComputationFailure)
        } else if cancelled {
            Err(GenerationError::Cancelled)
        } else {
            Err(GenerationError::Incomplete)
        }
    }
}

/// The ledger of every accumulator is a reachable one.
pub proof fn lemma_books_are_kept<P>(worker: Accumulator<P>)
    requires
        worker.wf(),
    ensures
        worker@.inv(),
{
}

/// A report keeps a reachable ledger reachable, and never changes the
/// share that is owed.
pub proof fn lemma_step_keeps_inv<P>(ledger: Ledger<P>, candidate: Candidate<P>)
    requires
        ledger.inv(),
    ensures
        ledger.step(candidate).inv(),
        ledger.step(candidate).target == ledger.target,
{
    let next = ledger.step(candidate);
    if !ledger.settled() {
        match candidate {
            Candidate::Accepted { position, density_ppm } => {
                let added = Particle { position, color: glow_color(density_ppm as int) };
                assert forall|i: int| 0 <= i < next.accepted.len() implies (
                #[trigger] next.accepted[i]).color.visible() by {
                    if i < ledger.accepted.len() {
                        assert(next.accepted[i] == ledger.accepted[i]);
                    } else {
                        assert(next.accepted[i] == added);
                    }
                }
            },
            Candidate::Rejected => {},
            Candidate::NonFinite => {},
        }
    }
}

/// A worker that is told to finish holds exactly its share, no more and no
/// fewer; and one that is told to draw is still short.
pub proof fn lemma_finish_means_exact<P>(ledger: Ledger<P>, cancelled: bool)
    requires
        ledger.inv(),
    ensures
        ledger.directive(cancelled) == Directive::Finish <==> ledger.accepted.len()
            == ledger.target,
        ledger.directive(cancelled) == Directive::Draw ==> ledger.accepted.len() < ledger.target,
        ledger.harvest(cancelled) is Ok <==> ledger.directive(cancelled) == Directive::Finish,
        ledger.harvest(cancelled) matches Ok(points) ==> points.len() == ledger.target,
{
}

/// Every report while the worker runs makes progress or costs an attempt:
/// an accepted point brings the share one nearer, and nothing else changes
/// the number of accepted points.
pub proof fn lemma_step_progress<P>(ledger: Ledger<P>, candidate: Candidate<P>)
    requires
        ledger.inv(),
        !ledger.settled(),
    ensures
        candidate is Accepted ==> ledger.step(candidate).accepted.len() == ledger.accepted.len()
            + 1,
        !(candidate is Accepted) ==> ledger.step(candidate).accepted == ledger.accepted,
        candidate is NonFinite ==> ledger.step(candidate).streak == ledger.streak + 1,
        !(candidate is NonFinite) ==> ledger.step(candidate).streak == 0,
{
}

/// The acceptance rate is a rate: never above a thousand per thousand.
pub proof fn lemma_rate_bounded<P>(ledger: Ledger<P>)
    requires
        ledger.inv(),
    ensures
        0 <= ledger.per_mille() <= 1000,
{
    if ledger.attempts > 0 {
        let accepted = ledger.accepted.len() as int;
        let attempts = ledger.attempts as int;
        assert(0 <= (accepted * 1000) / attempts <= 1000) by (nonlinear_arith)
            requires
                0 <= accepted <= attempts,
                attempts > 0,
        ;
    }
}

} // verus!

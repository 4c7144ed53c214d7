//! Drawing a candidate and judging it.
//!
//! A candidate is drawn in units of the sampling domain: each of its
//! numbers counts parts of `SCALE` of a range. The caller turns the first
//! three into a radius, the cosine of a polar angle and an azimuth, and
//! evaluates the density there. The density comes back as a level, in
//! parts of `SCALE` of the envelope's bound, and is judged against the
//! fourth number: the point is accepted if and only if the threshold lies
//! below the density.

use vstd::prelude::*;
use vstd::set_lib::{lemma_int_range, set_int_range};
use rand::Rng;
use crate::accumulator::Candidate;
use crate::color::FULL_SCALE;

verus! {

/// The random number generator that a worker owns.
#[verifier::external_type_specification]
#[verifier::external_body]
pub struct ExStdRng(rand::rngs::StdRng);

/// The number of parts that a range is divided into: two to the power of
/// 53, so that every part converts exactly to a double-precision fraction.
pub const SCALE: u64 = 0x20_0000_0000_0000;

/// Calls `Rng::gen_range` of the crate `rand` on the half-open range from
/// zero to `limit`. Believed of it: the value lies in the range. Nothing
/// is said of how the values are distributed, and two calls need not
/// agree. The range must not be empty, or the call would panic.
#[verifier::external_body]
fn random_below(rng: &mut rand::rngs::StdRng, limit: u64) -> (value: u64)
    requires
        limit > 0,
    ensures
        value < limit,
{
    rng.gen_range(0..limit)
}

/// One candidate, in parts of `SCALE`.
#[derive(Clone, Copy, Debug, PartialEq, Eq, Structural)]
pub struct Draw {
    /// The radius, as a part of the domain's outer radius.
    pub radial: u64,
    /// The cosine of the polar angle, as a part of the way from -1 to 1.
    pub polar: u64,
    /// The azimuth, as a part of the full turn.
    pub azimuthal: u64,
    /// The threshold, as a part of the envelope's bound.
    pub threshold: u64,
}

impl Draw {
    /// Every number of the draw is a proper part: below `SCALE`.
    pub open spec fn in_domain(self) -> bool {
        &&& self.radial < SCALE
        &&& self.polar < SCALE
        &&& self.azimuthal < SCALE
        &&& self.threshold < SCALE
    }
}

/// What the caller found at a candidate point.
#[derive(Clone, Copy, Debug, PartialEq, Eq, Structural)]
pub enum Evaluation {
    /// The density is a number; `level` is that number in parts of `SCALE`
    /// of the envelope's bound, rounded down.
    Finite { level: u64 },
    /// The density came out as NaN or infinite.
    NonFinite,
}

/// A level as the colour mapper takes it: in parts per million of the
/// bound, and no more than the bound.
pub open spec fn ppm_of(level: int) -> int {
    if level >= SCALE {
        FULL_SCALE as int
    } else if level <= 0 {
        0
    } else {
        level * FULL_SCALE / (SCALE as int)
    }
}

/// Whether a point of density `level` passes the threshold.
pub open spec fn passes(threshold: int, level: int) -> bool {
    threshold < level
}

/// The verdict on a candidate: a density that is no number rejects the
/// point, and a density that is one accepts it if and only if the
/// threshold lies below it.
pub open spec fn verdict_of<P>(threshold: int, position: P, evaluation: Evaluation) -> Candidate<
    P,
> {
    match evaluation {
        Evaluation::NonFinite => Candidate::NonFinite,
        Evaluation::Finite { level } => if passes(threshold, level as int) {
            Candidate::Accepted { position, density_ppm: ppm_of(level as int) as u32 }
        } else {
            Candidate::Rejected
        },
    }
}

/// Draws a candidate with the worker's own generator: four numbers, each
/// from zero up to but not including `SCALE`, taken from the generator in
/// the order radial, polar, azimuthal, threshold. The numbers are chance,
/// so nothing holds of every outcome but their range; what becomes of a
/// drawn number is stated where it is used, by `verdict_of` and
/// `batch_ran`.
pub fn draw(rng: &mut rand::rngs::StdRng) -> (drawn: Draw)
    ensures
        drawn.in_domain(),
{
    let radial: u64 = random_below(rng, SCALE);
    let polar: u64 = random_below(rng, SCALE);
    let azimuthal: u64 = random_below(rng, SCALE);
    let threshold: u64 = random_below(rng, SCALE);
    Draw { radial, polar, azimuthal, threshold }
}

/// Converts a level to parts per million of the bound.
pub fn level_ppm(level: u64) -> (ppm: u32)
    ensures
        ppm == ppm_of(level as int),
        ppm <= FULL_SCALE,
{
    if level >= SCALE {
        FULL_SCALE
    } else {
        let million: u128 = FULL_SCALE as u128;
        let parts: u128 = SCALE as u128;
        assert(million == 1_000_000 && parts == 0x20_0000_0000_0000);
        let wide: u128 = level as u128 * million / parts;
        wide as u32
    }
}

/// Judges a candidate.
pub fn verdict<P>(threshold: u64, position: P, evaluation: Evaluation) -> (candidate: Candidate<P>)
    ensures
        candidate == verdict_of(threshold as int, position, evaluation),
{
    match evaluation {
        Evaluation::NonFinite => Candidate::NonFinite,
        Evaluation::Finite { level } => if threshold < level {
            Candidate::Accepted { position, density_ppm: level_ppm(level) }
        } else {
            Candidate::Rejected
        },
    }
}

/// A point of no density is never accepted, and a point whose density
/// reaches the bound always is.
pub proof fn lemma_extremes(threshold: int, level: int)
    requires
        0 <= threshold < SCALE,
    ensures
        level <= 0 ==> !passes(threshold, level),
        level >= SCALE ==> passes(threshold, level),
{
}

/// A denser point passes every threshold that a thinner one passes.
pub proof fn lemma_denser_passes(threshold: int, thinner: int, denser: int)
    requires
        thinner <= denser,
        passes(threshold, thinner),
    ensures
        passes(threshold, denser),
{
}

/// Of the `SCALE` thresholds that can be drawn, exactly `level` accept a
/// point of density `level`: the chance of acceptance is the density's
/// share of the bound.
pub proof fn lemma_accepting_thresholds(level: int)
    requires
        0 <= level <= SCALE,
    ensures
        Set::new(|t: int| 0 <= t < SCALE && passes(t, level)).finite(),
        Set::new(|t: int| 0 <= t < SCALE && passes(t, level)).len() == level,
{
    lemma_int_range(0, level);
    assert(Set::new(|t: int| 0 <= t < SCALE && passes(t, level)) =~= set_int_range(0, level));
}

} // verus!

//! The failures a generation request can end in.

use vstd::prelude::*;

verus! {

/// Why a triple of integers names no orbital. The checks are made in the
/// order of the variants, and the first one that fails is reported.
#[derive(Clone, Copy, Debug, PartialEq, Eq, Structural)]
pub enum StateError {
    /// The principal number `n` is zero or negative.
    PrincipalNotPositive,
    /// The azimuthal number `l` lies outside `0 ..= n - 1`.
    AzimuthalOutOfRange,
    /// The magnetic number `m` lies outside `-l ..= l`.
    MagneticOutOfRange,
}

/// Why a generation request delivered no particle set.
#[derive(Clone, Copy, Debug, PartialEq, Eq, Structural)]
pub enum GenerationError {
    /// The quantum numbers name no orbital.
    InvalidState(StateError),
    /// Zero particles were asked for.
    InvalidCount,
    /// The request was to be split over zero workers.
    NoWorkers,
    /// The envelope search found no point of positive density.
    DegenerateEnvelope,
    /// Density evaluation kept producing values that are not finite.
    ComputationFailure,
    /// The caller withdrew the request before it was done.
    Cancelled,
    /// A worker ended without its full share of accepted points, or the
    /// workers together delivered fewer points than were asked for.
    Incomplete,
    /// The workers together delivered more points than were asked for.
    Surplus,
}

impl StateError {
    /// The text of `reason`.
    pub open spec fn reason_text(self) -> Seq<char> {
        match self {
            StateError::PrincipalNotPositive => "Principal quantum number (n) must be positive."@,
            StateError::AzimuthalOutOfRange => "Azimuthal quantum number (l) must be in the range [0, n-1]."@,
            StateError::MagneticOutOfRange => "Magnetic quantum number (m) must be in the range [-l, l]."@,
        }
    }

    /// A sentence for the person who typed the numbers.
    pub fn reason(&self) -> (text: String)
        ensures
            text@ == self.reason_text(),
    {
        match self {
            StateError::PrincipalNotPositive => "Principal quantum number (n) must be positive.".to_owned(),
            StateError::AzimuthalOutOfRange => "Azimuthal quantum number (l) must be in the range [0, n-1].".to_owned(),
            StateError::MagneticOutOfRange => "Magnetic quantum number (m) must be in the range [-l, l].".to_owned(),
        }
    }
}

impl GenerationError {
    /// The text of `reason`.
    pub open spec fn reason_text(self) -> Seq<char> {
        match self {
            GenerationError::InvalidState(e) => e.reason_text(),
            GenerationError::InvalidCount => "Particle count must be a positive number."@,
            GenerationError::NoWorkers => "At least one worker is needed."@,
            GenerationError::DegenerateEnvelope => "The density envelope is zero over the whole domain."@,
            GenerationError::ComputationFailure => "Density evaluation produced no finite values."@,
            GenerationError::Cancelled => "Generation was cancelled."@,
            GenerationError::Incomplete => "A worker stopped before its share was complete."@,
            GenerationError::Surplus => "The workers delivered more particles than requested."@,
        }
    }

    /// A sentence for the person who made the request.
    pub fn reason(&self) -> (text: String)
        ensures
            text@ == self.reason_text(),
    {
        match self {
            GenerationError::InvalidState(e) => e.reason(),
            GenerationError::InvalidCount => "Particle count must be a positive number.".to_owned(),
            GenerationError::NoWorkers => "At least one worker is needed.".to_owned(),
            GenerationError::DegenerateEnvelope => "The density envelope is zero over the whole domain.".to_owned(),
            GenerationError::ComputationFailure => "Density evaluation produced no finite values.".to_owned(),
            GenerationError::Cancelled => "Generation was cancelled.".to_owned(),
            GenerationError::Incomplete => "A worker stopped before its share was complete.".to_owned(),
            GenerationError::Surplus => "The workers delivered more particles than requested.".to_owned(),
        }
    }

    /// Whether asking again with other input can help: true of the
    /// validation failures, false of what went wrong while sampling.
    pub fn is_recoverable(&self) -> (yes: bool)
        ensures
            yes == (self is InvalidState || self is InvalidCount || self is NoWorkers),
    {
        match self {
            GenerationError::InvalidState(_) => true,
            GenerationError::InvalidCount => true,
            GenerationError::NoWorkers => true,
            _ => false,
        }
    }
}

} // verus!

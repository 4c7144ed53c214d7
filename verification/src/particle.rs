//! Particles and the finished particle set.
//!
//! The library never computes with a position: `P` is whatever the caller
//! keeps its coordinates in. What the library answers for is the colour of
//! every particle and the size of the set.

use vstd::prelude::*;
use crate::color::Color;

verus! {

/// One sphere of the cloud: where it is and how it is coloured.
#[derive(Debug)]
pub struct Particle<P> {
    pub position: P,
    pub color: Color,
}

/// Whether every particle of a sequence can be seen.
pub open spec fn all_visible<P>(particles: Seq<Particle<P>>) -> bool {
    forall|i: int| 0 <= i < particles.len() ==> (#[trigger] particles[i]).color.visible()
}

/// The positions of a sequence of particles, in order.
pub open spec fn positions_of<P>(particles: Seq<Particle<P>>) -> Seq<P> {
    Seq::new(particles.len(), |i: int| particles[i].position)
}

/// The colours of a sequence of particles, in order.
pub open spec fn colors_of<P>(particles: Seq<Particle<P>>) -> Seq<Color> {
    Seq::new(particles.len(), |i: int| particles[i].color)
}

/// The outcome of a generation request: exactly as many particles as were
/// asked for, each of them visible. A set is never short and never long,
/// so a buffer sized by the request fits it.
pub struct ParticleSet<P> {
    particles: Vec<Particle<P>>,
    requested: usize,
}

impl<P> View for ParticleSet<P> {
    type V = Seq<Particle<P>>;

    closed spec fn view(&self) -> Seq<Particle<P>> {
        self.particles@
    }
}

impl<P> ParticleSet<P> {
    /// Holds of every set: it has the requested size, the request was for
    /// at least one particle, and every particle can be seen.
    #[verifier::type_invariant]
    pub closed spec fn wf(self) -> bool {
        &&& self.particles@.len() == self.requested
        &&& self.requested > 0
        &&& all_visible(self.particles@)
    }

    /// The number of particles that the request asked for.
    pub closed spec fn spec_requested(self) -> nat {
        self.requested as nat
    }

    /// Wraps a buffer that is known to be complete.
    pub(crate) fn from_complete(particles: Vec<Particle<P>>, requested: usize) -> (set: Self)
        requires
            particles@.len() == requested,
            requested > 0,
            all_visible(particles@),
        ensures
            set@ == particles@,
            set.spec_requested() == requested,
            set.wf(),
    {
        ParticleSet { particles, requested }
    }

    /// The number of particles in the set, which is the number requested.
    pub fn len(&self) -> (n: usize)
        ensures
            n == self@.len(),
            n == self.spec_requested(),
            n > 0,
    {
        proof {
            use_type_invariant(self);
        }
        self.particles.len()
    }

    /// The number of particles that the request asked for.
    pub fn requested(&self) -> (n: usize)
        ensures
            n == self.spec_requested(),
            n == self@.len(),
    {
        proof {
            use_type_invariant(self);
        }
        self.requested
    }

    /// The particles, in the order in which the workers were joined.
    pub fn particles(&self) -> (particles: &Vec<Particle<P>>)
        ensures
            particles@ == self@,
            particles@.len() == self.spec_requested(),
            all_visible(particles@),
    {
        proof {
            use_type_invariant(self);
        }
        &self.particles
    }

    /// The particle at `index`, if the set has one there.
    pub fn get(&self, index: usize) -> (found: Option<&Particle<P>>)
        ensures
            index < self@.len() ==> found == Some(&self@[index as int])
                && self@[index as int].color.visible(),
            index >= self@.len() ==> found is None,
    {
        proof {
            use_type_invariant(self);
        }
        if index < self.particles.len() {
            Some(&self.particles[index])
        } else {
            None
        }
    }

    /// The number of instances to draw, where it fits the 32 bits that a
    /// draw call has for it.
    pub fn instance_count(&self) -> (count: Option<u32>)
        ensures
            self@.len() <= u32::MAX ==> count == Some(self@.len() as u32),
            self@.len() > u32::MAX ==> count is None,
    {
        let n: usize = self.particles.len();
        if n <= u32::MAX as usize {
            Some(n as u32)
        } else {
            None
        }
    }

    /// Gives up the particles.
    pub fn into_particles(self) -> (particles: Vec<Particle<P>>)
        ensures
            particles@ == self@,
            particles@.len() == self.spec_requested(),
            all_visible(particles@),
    {
        proof {
            use_type_invariant(&self);
        }
        self.particles
    }
}

impl<P: Copy> ParticleSet<P> {
    /// The set as two parallel per-instance attributes: entry `i` of the
    /// first is the position of particle `i`, entry `i` of the second its
    /// colour.
    pub fn attributes(&self) -> (columns: (Vec<P>, Vec<Color>))
        ensures
            columns.0@ == positions_of(self@),
            columns.1@ == colors_of(self@),
            columns.0@.len() == self.spec_requested(),
            columns.1@.len() == self.spec_requested(),
    {
        proof {
            use_type_invariant(self);
        }
        let mut positions: Vec<P> = Vec::new();
        let mut colors: Vec<Color> = Vec::new();
        let mut i: usize = 0;
        while i < self.particles.len()
            invariant
                i <= self.particles@.len(),
                positions@.len() == i,
                colors@.len() == i,
                forall|k: int| 0 <= k < i ==> positions@[k] == self.particles@[k].position,
                forall|k: int| 0 <= k < i ==> colors@[k] == self.particles@[k].color,
            decreases self.particles@.len() - i,
        {
            positions.push(self.particles[i].position);
            colors.push(self.particles[i].color);
            i += 1;
        }
        assert(positions@ =~= positions_of(self@));
        assert(colors@ =~= colors_of(self@));
        (positions, colors)
    }
}

/// What holds of every particle set: its size is the size requested, the
/// request was not empty, every channel of every colour stands for a
/// number from zero to one, and every alpha is above zero.
pub proof fn lemma_set_is_exact<P>(set: ParticleSet<P>)
    requires
        set.wf(),
    ensures
        set@.len() == set.spec_requested(),
        set@.len() > 0,
        all_visible(set@),
        forall|i: int|
            0 <= i < set@.len() ==> {
                let color = (#[trigger] set@[i]).color;
                &&& 0 <= color.r <= 255
                &&& 0 <= color.g <= 255
                &&& 0 <= color.b <= 255
                &&& 0 < color.a <= 255
            },
{
}

} // verus!

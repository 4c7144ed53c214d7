//! Quantum numbers of a hydrogen-like orbital.

use vstd::prelude::*;
use crate::error::StateError;

verus! {

/// Whether `(n, l, m)` names an orbital: `n >= 1`, `0 <= l <= n - 1`,
/// `-l <= m <= l`.
pub open spec fn admissible(n: int, l: int, m: int) -> bool {
    &&& n >= 1
    &&& 0 <= l < n
    &&& -l <= m <= l
}

/// The first rule that `(n, l, m)` breaks, if it breaks one.
pub open spec fn first_violation(n: int, l: int, m: int) -> Option<StateError> {
    if n < 1 {
        Some(StateError::PrincipalNotPositive)
    } else if l < 0 || l >= n {
        Some(StateError::AzimuthalOutOfRange)
    } else if m < -l || m > l {
        Some(StateError::MagneticOutOfRange)
    } else {
        None
    }
}

/// The radius, in Bohr radii, beyond which no candidate point is drawn
/// for principal number `n`.
pub open spec fn radial_extent_of(n: int) -> int {
    3 * (n * n) + 6 * n
}

/// Grid points per unit of principal number along the radius.
pub const RADIAL_STEPS: u32 = 4096;

/// Grid points per polar lobe along the polar angle.
pub const POLAR_STEPS: u32 = 1024;

/// The number of steps of the envelope's grid along the radius: so many
/// for every unit of `n`, as far as 32 bits go.
pub open spec fn radial_steps_of(n: int) -> int {
    if RADIAL_STEPS * n > u32::MAX {
        u32::MAX as int
    } else {
        RADIAL_STEPS * n
    }
}

/// The number of steps of the envelope's grid along the polar angle: so
/// many for every one of the `l + 1` values that `|m|` can take, as far
/// as 32 bits go.
pub open spec fn polar_steps_of(l: int) -> int {
    if POLAR_STEPS * (l + 1) > u32::MAX {
        u32::MAX as int
    } else {
        POLAR_STEPS * (l + 1)
    }
}

/// A validated triple of quantum numbers. A value of this type always
/// names an orbital; the numbers cannot be changed after construction.
#[derive(Clone, Copy, Debug, PartialEq, Eq, Structural)]
pub struct QuantumState {
    n: i32,
    l: i32,
    m: i32,
}

impl View for QuantumState {
    type V = (int, int, int);

    closed spec fn view(&self) -> (int, int, int) {
        (self.n as int, self.l as int, self.m as int)
    }
}

impl QuantumState {
    /// Every value of the type names an orbital.
    #[verifier::type_invariant]
    pub closed spec fn wf(self) -> bool {
        admissible(self.n as int, self.l as int, self.m as int)
    }

    /// The principal number.
    pub open spec fn spec_n(self) -> int {
        self@.0
    }

    /// The azimuthal number.
    pub open spec fn spec_l(self) -> int {
        self@.1
    }

    /// The magnetic number.
    pub open spec fn spec_m(self) -> int {
        self@.2
    }

    /// Validates `(n, l, m)`. Nothing is clamped: a triple that breaks a
    /// rule is refused, with the first rule it breaks.
    pub fn new(n: i32, l: i32, m: i32) -> (made: Result<QuantumState, StateError>)
        ensures
            made is Ok <==> admissible(n as int, l as int, m as int),
            made matches Ok(state) ==> state@ == (n as int, l as int, m as int) && state.wf(),
            made matches Err(e) ==> first_violation(n as int, l as int, m as int) == Some(e),
    {
        if n <= 0 {
            Err(StateError::PrincipalNotPositive)
        } else if l < 0 || l >= n {
            Err(StateError::AzimuthalOutOfRange)
        } else if m < -l || m > l {
            Err(StateError::MagneticOutOfRange)
        } else {
            Ok(QuantumState { n, l, m })
        }
    }

    /// The principal number `n`.
    pub fn n(&self) -> (n: i32)
        ensures
            n == self.spec_n(),
            n >= 1,
    {
        proof {
            use_type_invariant(self);
        }
        self.n
    }

    /// The azimuthal number `l`.
    pub fn l(&self) -> (l: i32)
        ensures
            l == self.spec_l(),
            0 <= l < self.spec_n(),
    {
        proof {
            use_type_invariant(self);
        }
        self.l
    }

    /// The magnetic number `m`.
    pub fn m(&self) -> (m: i32)
        ensures
            m == self.spec_m(),
            -self.spec_l() <= m <= self.spec_l(),
    {
        proof {
            use_type_invariant(self);
        }
        self.m
    }

    /// The number of radial nodes, `n - l - 1`.
    pub fn radial_nodes(&self) -> (nodes: u32)
        ensures
            nodes == self.spec_n() - self.spec_l() - 1,
    {
        proof {
            use_type_invariant(self);
        }
        (self.n - self.l - 1) as u32
    }

    /// The magnitude of the magnetic number, `|m|`.
    pub fn magnetic_magnitude(&self) -> (magnitude: u32)
        ensures
            magnitude == if self.spec_m() < 0 {
                -self.spec_m()
            } else {
                self.spec_m()
            },
            magnitude <= self.spec_l(),
    {
        proof {
            use_type_invariant(self);
        }
        if self.m < 0 {
            (0 - self.m) as u32
        } else {
            self.m as u32
        }
    }

    /// The order of the associated Laguerre polynomial in the radial
    /// wavefunction, `2l + 1`. Its degree is the number of radial nodes.
    pub fn laguerre_order(&self) -> (order: u32)
        ensures
            order == 2 * self.spec_l() + 1,
    {
        proof {
            use_type_invariant(self);
        }
        2 * (self.l as u32) + 1
    }

    /// The resolution of the grid on which the envelope is searched:
    /// steps along the radius, then steps along the polar angle. The grid
    /// is finer for orbitals with more lobes.
    pub fn envelope_grid(&self) -> (steps: (u32, u32))
        ensures
            steps.0 == radial_steps_of(self.spec_n()),
            steps.1 == polar_steps_of(self.spec_l()),
            steps.0 >= RADIAL_STEPS,
            steps.1 >= POLAR_STEPS,
    {
        proof {
            use_type_invariant(self);
        }
        let radial: u64 = RADIAL_STEPS as u64 * self.n as u64;
        let polar: u64 = POLAR_STEPS as u64 * (self.l as u64 + 1);
        (
            if radial > u32::MAX as u64 {
                u32::MAX
            } else {
                radial as u32
            },
            if polar > u32::MAX as u64 {
                u32::MAX
            } else {
                polar as u32
            },
        )
    }

    /// The outer radius of the sampling domain, in Bohr radii. It grows
    /// with the square of `n`, as the orbital does.
    pub fn radial_extent(&self) -> (extent: u64)
        ensures
            extent == radial_extent_of(self.spec_n()),
            extent >= 9,
    {
        proof {
            use_type_invariant(self);
        }
        let n: u64 = self.n as u64;
        assert(n * n <= 0x7fff_ffff * 0x7fff_ffff) by (nonlinear_arith)
            requires
                n <= 0x7fff_ffff,
        ;
        assert(n * n >= 1) by (nonlinear_arith)
            requires
                n >= 1,
        ;
        let square: u64 = n * n;
        3 * square + 6 * n
    }
}

/// The sampling domain grows with the orbital: its radius is at least
/// three times the square of `n`, and a larger `n` never has a smaller
/// domain.
pub proof fn lemma_extent_grows(n: int, larger: int)
    requires
        1 <= n <= larger,
    ensures
        radial_extent_of(n) >= 3 * (n * n),
        radial_extent_of(n) <= radial_extent_of(larger),
{
    assert(n * n <= larger * larger) by (nonlinear_arith)
        requires
            1 <= n <= larger,
    ;
}

/// An admissible triple breaks no rule, and a triple that breaks none is
/// admissible.
pub proof fn lemma_admissible_iff_no_violation(n: int, l: int, m: int)
    ensures
        admissible(n, l, m) <==> first_violation(n, l, m) is None,
{
}

} // verus!

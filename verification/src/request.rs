//! A generation request, validated before any sampling starts.

use vstd::prelude::*;
use crate::error::GenerationError;
use crate::partition::{share_of, total, worker_shares};
use crate::quantum::{first_violation, QuantumState};

verus! {

/// Checks a particle count: any count but zero will do.
pub fn validate_count(count: usize) -> (checked: Result<usize, GenerationError>)
    ensures
        count > 0 ==> checked == Ok::<usize, GenerationError>(count),
        count == 0 ==> checked == Err::<usize, GenerationError>(GenerationError::InvalidCount),
{
    if count == 0 {
        Err(GenerationError::InvalidCount)
    } else {
        Ok(count)
    }
}

/// Why a request is refused, if it is. The quantum numbers are looked at
/// first, then the count, then the number of workers.
pub open spec fn refusal(n: int, l: int, m: int, count: int, workers: int) -> Option<
    GenerationError,
> {
    match first_violation(n, l, m) {
        Some(e) => Some(GenerationError::InvalidState(e)),
        None => if count <= 0 {
            Some(GenerationError::InvalidCount)
        } else if workers <= 0 {
            Some(GenerationError::NoWorkers)
        } else {
            None
        },
    }
}

/// A request that has passed validation: an orbital, a count above zero,
/// and at least one worker.
#[derive(Clone, Copy, Debug)]
pub struct Request {
    state: QuantumState,
    count: usize,
    workers: usize,
}

impl Request {
    /// Holds of every request.
    #[verifier::type_invariant]
    pub closed spec fn wf(self) -> bool {
        &&& self.count > 0
        &&& self.workers > 0
        &&& self.state.wf()
    }

    /// The orbital to sample.
    pub closed spec fn spec_state(self) -> QuantumState {
        self.state
    }

    /// The number of particles asked for.
    pub closed spec fn spec_count(self) -> nat {
        self.count as nat
    }

    /// The number of workers to split the request over.
    pub closed spec fn spec_workers(self) -> nat {
        self.workers as nat
    }

    /// Validates a request from raw numbers. It is refused for the first
    /// thing wrong with it; nothing is clamped or replaced by a default.
    pub fn new(n: i32, l: i32, m: i32, count: usize, workers: usize) -> (made: Result<
        Request,
        GenerationError,
    >)
        ensures
            made is Ok <==> refusal(n as int, l as int, m as int, count as int, workers as int)
                is None,
            made matches Ok(request) ==> request.spec_state()@ == (n as int, l as int, m as int)
                && request.spec_count() == count && request.spec_workers() == workers
                && request.wf(),
            made matches Err(e) ==> refusal(
                n as int,
                l as int,
                m as int,
                count as int,
                workers as int,
            ) == Some(e),
    {
        match QuantumState::new(n, l, m) {
            Err(e) => Err(GenerationError::InvalidState(e)),
            Ok(state) => Request::for_state(state, count, workers),
        }
    }

    /// Validates a request for an orbital that is already known to be one.
    pub fn for_state(state: QuantumState, count: usize, workers: usize) -> (made: Result<
        Request,
        GenerationError,
    >)
        ensures
            made is Ok <==> count > 0 && workers > 0,
            made matches Ok(request) ==> request.spec_state() == state && request.spec_count()
                == count && request.spec_workers() == workers && request.wf(),
            made matches Err(e) ==> e == if count == 0 {
                GenerationError::InvalidCount
            } else {
                GenerationError::NoWorkers
            },
    {
        proof {
            use_type_invariant(&state);
        }
        if count == 0 {
            Err(GenerationError::InvalidCount)
        } else if workers == 0 {
            Err(GenerationError::NoWorkers)
        } else {
            Ok(Request { state, count, workers })
        }
    }

    /// The orbital to sample.
    pub fn state(&self) -> (state: QuantumState)
        ensures
            state == self.spec_state(),
            state.wf(),
    {
        proof {
            use_type_invariant(self);
        }
        self.state
    }

    /// The number of particles asked for.
    pub fn count(&self) -> (count: usize)
        ensures
            count == self.spec_count(),
            count > 0,
    {
        proof {
            use_type_invariant(self);
        }
        self.count
    }

    /// The number of workers.
    pub fn workers(&self) -> (workers: usize)
        ensures
            workers == self.spec_workers(),
            workers > 0,
    {
        proof {
            use_type_invariant(self);
        }
        self.workers
    }

    /// What each worker has to deliver. The shares are as even as can be,
    /// and together they are the whole request.
    pub fn shares(&self) -> (shares: Vec<usize>)
        ensures
            shares@.len() == self.spec_workers(),
            forall|i: int|
                0 <= i < shares@.len() ==> (#[trigger] shares@[i]) == share_of(
                    self.spec_count() as int,
                    self.spec_workers() as int,
                    i,
                ),
            total(shares@) == self.spec_count(),
    {
        proof {
            use_type_invariant(self);
        }
        worker_shares(self.count, self.workers)
    }
}

} // verus!

use atom_simulator::accumulator::{Accumulator, Candidate, Directive, BATCH, NON_FINITE_LIMIT};
use atom_simulator::assembly::{join, Assembly};
use atom_simulator::color::{glow, Color};
use atom_simulator::diagnostics::{diagnostics, Diagnostics};
use atom_simulator::error::GenerationError;
use atom_simulator::particle::ParticleSet;
use atom_simulator::request::Request;

fn accepted(x: f32, density_ppm: u32) -> Candidate<[f32; 3]> {
    Candidate::Accepted { position: [x, 0.0, 0.0], density_ppm }
}

/// Runs a worker that accepts every third candidate until it is told to stop.
fn run_worker(share: usize) -> Accumulator<[f32; 3]> {
    let mut worker = Accumulator::new(share);
    let mut turn: u32 = 0;
    while worker.directive(false) == Directive::Draw {
        turn += 1;
        if turn % 3 == 0 {
            worker.record(accepted(turn as f32, turn.wrapping_mul(7919) % 1_100_000));
        } else {
            worker.record(Candidate::Rejected);
        }
    }
    worker
}

fn generate(count: usize, workers: usize) -> Result<ParticleSet<[f32; 3]>, GenerationError> {
    let request = Request::new(3, 2, 1, count, workers)?;
    let done: Vec<Accumulator<[f32; 3]>> =
        request.shares().into_iter().map(run_worker).collect();
    join(request.count(), done, false)
}

#[test]
fn a_set_has_exactly_the_requested_size() {
    for count in [1usize, 100, 10_000] {
        let set = generate(count, 1).unwrap();
        assert_eq!(set.len(), count);
        assert_eq!(set.requested(), count);
        assert_eq!(set.particles().len(), count);
    }
}

#[test]
fn many_workers_give_the_same_size_as_one() {
    for workers in [1usize, 2, 3, 8, 64] {
        for count in [1usize, 100, 10_000] {
            let set = generate(count, workers).unwrap();
            assert_eq!(set.len(), count);
        }
    }
}

#[test]
fn half_a_million_particles_over_sixteen_workers() {
    let set = generate(500_000, 16).unwrap();
    assert_eq!(set.len(), 500_000);
    assert_eq!(set.instance_count(), Some(500_000));
    for particle in set.particles() {
        assert!(particle.color.a > 0);
    }
}

#[test]
fn every_particle_of_a_set_is_visible() {
    let set = generate(10_000, 4).unwrap();
    for particle in set.particles() {
        assert!(particle.color.a > 0);
        for byte in particle.color.to_bytes() {
            let channel = byte as f32 / 255.0;
            assert!((0.0..=1.0).contains(&channel));
        }
    }
}

#[test]
fn invalid_requests_do_no_sampling() {
    assert!(matches!(generate(0, 4), Err(GenerationError::InvalidCount)));
    assert!(matches!(generate(10, 0), Err(GenerationError::NoWorkers)));
}

#[test]
fn a_fresh_worker_is_told_to_draw() {
    let worker: Accumulator<[f32; 3]> = Accumulator::new(3);
    assert_eq!(worker.directive(false), Directive::Draw);
    assert_eq!(worker.target(), 3);
    assert_eq!(worker.accepted(), 0);
    assert_eq!(worker.remaining(), 3);
    assert_eq!(worker.attempts(), 0);
    assert_eq!(worker.acceptance_per_mille(), 0);
    assert!(!worker.is_complete());
    assert!(!worker.has_failed());
}

#[test]
fn a_worker_with_nothing_to_do_is_complete_at_once() {
    let worker: Accumulator<[f32; 3]> = Accumulator::new(0);
    assert_eq!(worker.directive(false), Directive::Finish);
    assert_eq!(worker.directive(true), Directive::Finish);
    assert!(worker.is_complete());
    assert_eq!(worker.into_particles(false).unwrap().len(), 0);
}

#[test]
fn accepted_points_are_kept_in_order_and_coloured_by_density() {
    let mut worker = Accumulator::new(2);
    assert_eq!(worker.record(accepted(1.0, 500_000)), Directive::Draw);
    assert_eq!(worker.record(Candidate::Rejected), Directive::Draw);
    assert_eq!(worker.record(accepted(2.0, 0)), Directive::Finish);
    assert_eq!(worker.accepted(), 2);
    assert_eq!(worker.attempts(), 3);
    assert_eq!(worker.remaining(), 0);
    assert_eq!(worker.acceptance_per_mille(), 666);
    let points = worker.into_particles(false).unwrap();
    assert_eq!(points[0].position, [1.0, 0.0, 0.0]);
    assert_eq!(points[0].color, Color { r: 255, g: 127, b: 0, a: 159 });
    assert_eq!(points[1].position, [2.0, 0.0, 0.0]);
    assert_eq!(points[1].color, glow(0));
}

#[test]
fn a_complete_worker_ignores_further_reports() {
    let mut worker = Accumulator::new(1);
    assert_eq!(worker.record(accepted(1.0, 10)), Directive::Finish);
    assert_eq!(worker.record(accepted(2.0, 10)), Directive::Finish);
    assert_eq!(worker.record(Candidate::Rejected), Directive::Finish);
    assert_eq!(worker.record(Candidate::NonFinite), Directive::Finish);
    assert_eq!(worker.accepted(), 1);
    assert_eq!(worker.attempts(), 1);
    assert_eq!(worker.acceptance_per_mille(), 1000);
}

#[test]
fn a_point_that_is_not_finite_is_rejected_not_fatal() {
    let mut worker = Accumulator::new(1);
    assert_eq!(worker.record(Candidate::NonFinite), Directive::Draw);
    assert_eq!(worker.accepted(), 0);
    assert_eq!(worker.attempts(), 1);
    assert!(!worker.has_failed());
    assert_eq!(worker.record(accepted(1.0, 10)), Directive::Finish);
}

#[test]
fn pervasive_non_finite_values_fail_the_worker() {
    let mut worker: Accumulator<[f32; 3]> = Accumulator::new(1);
    for _ in 0..NON_FINITE_LIMIT - 1 {
        assert_eq!(worker.record(Candidate::NonFinite), Directive::Draw);
    }
    assert_eq!(
        worker.record(Candidate::NonFinite),
        Directive::Abort(GenerationError::ComputationFailure)
    );
    assert!(worker.has_failed());
    assert_eq!(worker.attempts(), NON_FINITE_LIMIT as u64);
    assert_eq!(
        worker.record(accepted(1.0, 10)),
        Directive::Abort(GenerationError::ComputationFailure)
    );
    assert_eq!(worker.accepted(), 0);
    assert_eq!(worker.attempts(), 10_000);
    assert_eq!(worker.into_particles(false).err(), Some(GenerationError::ComputationFailure));
}

#[test]
fn a_finite_value_ends_a_streak() {
    let mut worker: Accumulator<[f32; 3]> = Accumulator::new(1);
    for _ in 0..NON_FINITE_LIMIT - 1 {
        worker.record(Candidate::NonFinite);
    }
    assert_eq!(worker.record(Candidate::Rejected), Directive::Draw);
    for _ in 0..NON_FINITE_LIMIT - 1 {
        assert_eq!(worker.record(Candidate::NonFinite), Directive::Draw);
    }
    assert!(!worker.has_failed());
}

#[test]
fn cancellation_aborts_an_unfinished_worker() {
    let mut worker = Accumulator::new(2);
    assert_eq!(worker.directive(true), Directive::Abort(GenerationError::Cancelled));
    worker.record(accepted(1.0, 10));
    assert_eq!(worker.directive(true), Directive::Abort(GenerationError::Cancelled));
    assert_eq!(worker.directive(false), Directive::Draw);
    assert_eq!(worker.into_particles(true).err(), Some(GenerationError::Cancelled));
}

#[test]
fn a_worker_that_stopped_for_no_reason_is_incomplete() {
    let mut worker = Accumulator::new(2);
    worker.record(accepted(1.0, 10));
    assert_eq!(worker.into_particles(false).err(), Some(GenerationError::Incomplete));
}

#[test]
fn a_complete_worker_delivers_even_after_cancellation() {
    let mut worker = Accumulator::new(1);
    worker.record(accepted(1.0, 10));
    assert_eq!(worker.directive(true), Directive::Finish);
    assert_eq!(worker.into_particles(true).unwrap().len(), 1);
}

#[test]
fn a_failed_worker_reports_failure_even_after_cancellation() {
    let mut worker: Accumulator<[f32; 3]> = Accumulator::new(1);
    for _ in 0..NON_FINITE_LIMIT {
        worker.record(Candidate::NonFinite);
    }
    assert_eq!(worker.directive(true), Directive::Abort(GenerationError::ComputationFailure));
    assert_eq!(worker.into_particles(true).err(), Some(GenerationError::ComputationFailure));
}

#[test]
fn the_flag_is_looked_at_once_a_batch() {
    let mut worker: Accumulator<[f32; 3]> = Accumulator::new(1);
    assert!(worker.check_due());
    let mut due: u64 = 0;
    for _ in 0..3 * BATCH {
        worker.record(Candidate::Rejected);
        if worker.check_due() {
            due += 1;
        }
    }
    assert_eq!(due, 3);
    assert_eq!(BATCH, 1024);
}

#[test]
fn an_assembly_for_nothing_is_refused() {
    assert_eq!(Assembly::<[f32; 3]>::new(0).err(), Some(GenerationError::InvalidCount));
}

#[test]
fn an_assembly_takes_complete_workers_in_order() {
    let mut assembly = Assembly::new(3).unwrap();
    assert_eq!(assembly.missing(), 3);
    let mut first = Accumulator::new(2);
    first.record(accepted(1.0, 1));
    first.record(accepted(2.0, 2));
    let mut second = Accumulator::new(1);
    second.record(accepted(3.0, 3));
    assert_eq!(assembly.absorb(first, false), Ok(()));
    assert_eq!(assembly.len(), 2);
    assert_eq!(assembly.missing(), 1);
    assert_eq!(assembly.absorb(second, false), Ok(()));
    let set = assembly.finish().unwrap();
    let xs: Vec<f32> = set.particles().iter().map(|p| p.position[0]).collect();
    assert_eq!(xs, vec![1.0, 2.0, 3.0]);
    assert_eq!(set.get(2).map(|p| p.position), Some([3.0, 0.0, 0.0]));
    assert!(set.get(3).is_none());
}

#[test]
fn an_unfinished_worker_is_refused_and_changes_nothing() {
    let mut assembly = Assembly::new(3).unwrap();
    let mut short = Accumulator::new(2);
    short.record(accepted(1.0, 1));
    assert_eq!(assembly.absorb(short, false), Err(GenerationError::Incomplete));
    assert_eq!(assembly.len(), 0);
    assert_eq!(assembly.finish().err(), Some(GenerationError::Incomplete));
}

#[test]
fn a_surplus_is_refused_and_changes_nothing() {
    let mut assembly = Assembly::new(1).unwrap();
    let mut big = Accumulator::new(2);
    big.record(accepted(1.0, 1));
    big.record(accepted(2.0, 1));
    assert_eq!(assembly.absorb(big, false), Err(GenerationError::Surplus));
    assert_eq!(assembly.len(), 0);
}

#[test]
fn a_short_join_delivers_no_set() {
    let mut only = Accumulator::new(2);
    only.record(accepted(1.0, 1));
    only.record(accepted(2.0, 1));
    assert_eq!(join(3, vec![only], false).err(), Some(GenerationError::Incomplete));
    assert_eq!(join::<[f32; 3]>(3, vec![], false).err(), Some(GenerationError::Incomplete));
    assert_eq!(join::<[f32; 3]>(0, vec![], false).err(), Some(GenerationError::InvalidCount));
}

#[test]
fn a_join_reports_the_first_worker_that_is_refused() {
    let mut good = Accumulator::new(1);
    good.record(accepted(1.0, 1));
    let mut failed: Accumulator<[f32; 3]> = Accumulator::new(1);
    for _ in 0..NON_FINITE_LIMIT {
        failed.record(Candidate::NonFinite);
    }
    let short: Accumulator<[f32; 3]> = Accumulator::new(1);
    assert_eq!(
        join(3, vec![good, failed, short], false).err(),
        Some(GenerationError::ComputationFailure)
    );
}

#[test]
fn a_withdrawn_request_is_reported_as_cancelled() {
    let mut good = Accumulator::new(1);
    good.record(accepted(1.0, 1));
    let short: Accumulator<[f32; 3]> = Accumulator::new(2);
    assert_eq!(join(3, vec![good, short], true).err(), Some(GenerationError::Cancelled));
}

#[test]
fn a_complete_request_is_delivered_even_if_withdrawn_late() {
    let mut good = Accumulator::new(1);
    good.record(accepted(1.0, 1));
    assert_eq!(join(1, vec![good], true).unwrap().len(), 1);
}

#[test]
fn totals_add_up_over_the_workers() {
    let mut first: Accumulator<[f32; 3]> = Accumulator::new(2);
    first.record(Candidate::Rejected);
    first.record(accepted(1.0, 1));
    first.record(Candidate::NonFinite);
    first.record(accepted(2.0, 1));
    let mut second: Accumulator<[f32; 3]> = Accumulator::new(1);
    second.record(Candidate::Rejected);
    second.record(accepted(3.0, 1));
    let workers = vec![first, second];
    let totals = diagnostics(&workers);
    assert_eq!(totals, Diagnostics { accepted: 3, attempts: 6 });
    assert_eq!(totals.acceptance_per_mille(), 500);
    assert_eq!(diagnostics::<[f32; 3]>(&vec![]), Diagnostics { accepted: 0, attempts: 0 });
}

#[test]
fn rates_are_rounded_down_and_never_above_a_thousand() {
    assert_eq!(Diagnostics { accepted: 0, attempts: 0 }.acceptance_per_mille(), 0);
    assert_eq!(Diagnostics { accepted: 1, attempts: 3 }.acceptance_per_mille(), 333);
    assert_eq!(Diagnostics { accepted: 2, attempts: 3 }.acceptance_per_mille(), 666);
    assert_eq!(Diagnostics { accepted: 3, attempts: 3 }.acceptance_per_mille(), 1000);
    assert_eq!(Diagnostics { accepted: 9, attempts: 3 }.acceptance_per_mille(), 1000);
    assert_eq!(
        Diagnostics { accepted: u64::MAX, attempts: u64::MAX }.acceptance_per_mille(),
        1000
    );
}

#[test]
fn a_set_splits_into_parallel_attributes() {
    let mut worker = Accumulator::new(3);
    worker.record(accepted(1.0, 0));
    worker.record(accepted(2.0, 500_000));
    worker.record(accepted(3.0, 1_000_000));
    let set = join(3, vec![worker], false).unwrap();
    let (positions, colors) = set.attributes();
    assert_eq!(positions, vec![[1.0, 0.0, 0.0], [2.0, 0.0, 0.0], [3.0, 0.0, 0.0]]);
    assert_eq!(colors, vec![glow(0), glow(500_000), glow(1_000_000)]);
    let particles = set.into_particles();
    assert_eq!(particles.len(), 3);
    assert_eq!(particles[1].color, glow(500_000));
}

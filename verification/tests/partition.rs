use atom_simulator::partition::worker_shares;

#[test]
fn one_worker_takes_everything() {
    assert_eq!(worker_shares(10_000, 1), vec![10_000]);
}

#[test]
fn an_even_split_is_even() {
    assert_eq!(worker_shares(100, 4), vec![25, 25, 25, 25]);
}

#[test]
fn the_remainder_goes_to_the_first_workers() {
    assert_eq!(worker_shares(10, 3), vec![4, 3, 3]);
    assert_eq!(worker_shares(11, 3), vec![4, 4, 3]);
    assert_eq!(worker_shares(500_000, 7), vec![71_429, 71_429, 71_429, 71_429, 71_428, 71_428, 71_428]);
}

#[test]
fn more_workers_than_particles_leaves_some_idle() {
    assert_eq!(worker_shares(2, 5), vec![1, 1, 0, 0, 0]);
    assert_eq!(worker_shares(0, 3), vec![0, 0, 0]);
}

#[test]
fn shares_always_sum_to_the_request() {
    for count in [0usize, 1, 2, 99, 100, 10_000, 500_000, 999_983] {
        for workers in 1usize..=33 {
            let shares = worker_shares(count, workers);
            assert_eq!(shares.len(), workers);
            assert_eq!(shares.iter().sum::<usize>(), count);
            let most = *shares.iter().max().unwrap();
            let least = *shares.iter().min().unwrap();
            assert!(most - least <= 1);
        }
    }
}

#[test]
fn the_largest_request_does_not_overflow() {
    let shares = worker_shares(usize::MAX, 2);
    assert_eq!(shares, vec![usize::MAX / 2 + 1, usize::MAX / 2]);
}

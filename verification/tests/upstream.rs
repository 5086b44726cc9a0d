use hyper::Uri;
use rpxy_backend::backend::load_balance::LoadBalance;
use rpxy_backend::backend::upstream::{Upstream, UpstreamCount};
use rpxy_backend::error::RpxyError;

fn uris(n: usize) -> Vec<Uri> {
    (0..n).map(|i| format!("http://target{}.example:8080/", i).parse().unwrap()).collect()
}

fn upstream(n: usize, lb: LoadBalance) -> Upstream {
    match Upstream::new(uris(n), lb) {
        Ok(upstream) => upstream,
        Err(e) => panic!("no upstream: {:?}", e),
    }
}

#[test]
fn upstream_without_target_is_refused() {
    assert!(matches!(
        Upstream::new(Vec::new(), LoadBalance::RoundRobin),
        Err(RpxyError::NoUpstreamTarget)
    ));
    assert!(matches!(
        Upstream::new(Vec::new(), LoadBalance::Random),
        Err(RpxyError::NoUpstreamTarget)
    ));
}

#[test]
fn upstream_keeps_its_targets_and_strategy() {
    let made = upstream(3, LoadBalance::Random);
    assert_eq!(made.uri(), &uris(3));
    assert_eq!(made.lb(), LoadBalance::Random);
    assert_eq!(made.current_cnt(), 0);
}

#[test]
fn round_robin_serves_in_order_and_starts_again() {
    for n in 1..6 {
        let targets = uris(n);
        let upstream = upstream(n, LoadBalance::RoundRobin);
        for call in 0..n {
            assert_eq!(upstream.get(), Some(&targets[call]));
        }
        assert_eq!(upstream.get(), Some(&targets[0]));
    }
}

#[test]
fn round_robin_with_one_target_serves_it_every_time() {
    let targets = uris(1);
    let upstream = upstream(1, LoadBalance::RoundRobin);
    for _ in 0..10 {
        assert_eq!(upstream.get(), Some(&targets[0]));
        assert_eq!(upstream.current_cnt(), 0);
    }
}

#[test]
fn round_robin_counter_follows_the_calls() {
    let upstream = upstream(3, LoadBalance::RoundRobin);
    let mut counts = Vec::new();
    for _ in 0..7 {
        counts.push(upstream.current_cnt());
        upstream.get();
    }
    assert_eq!(counts, vec![0, 1, 2, 0, 1, 2, 0]);
}

#[test]
fn round_robin_window_serves_each_target_once() {
    let n = 4;
    let targets = uris(n);
    for earlier in 0..(2 * n) {
        let upstream = upstream(n, LoadBalance::RoundRobin);
        for _ in 0..earlier {
            upstream.get();
        }
        let mut served: Vec<usize> = (0..n)
            .map(|_| {
                let picked = upstream.get().unwrap();
                targets.iter().position(|t| t == picked).unwrap()
            })
            .collect();
        assert_eq!(served[0], earlier % n);
        served.sort();
        assert_eq!(served, vec![0, 1, 2, 3]);
    }
}

#[test]
fn clone_shares_the_counter() {
    let targets = uris(3);
    let first = upstream(3, LoadBalance::RoundRobin);
    let second = first.clone();
    assert_eq!(second.uri(), first.uri());
    assert_eq!(second.lb(), first.lb());
    assert_eq!(first.get(), Some(&targets[0]));
    assert_eq!(second.get(), Some(&targets[1]));
    assert_eq!(first.get(), Some(&targets[2]));
    assert_eq!(second.get(), Some(&targets[0]));
}

#[test]
fn random_reaches_every_target() {
    for n in 1..5 {
        let targets = uris(n);
        let upstream = upstream(n, LoadBalance::Random);
        let mut seen = vec![false; n];
        for _ in 0..2000 {
            let picked = upstream.get().expect("random always has a target");
            seen[targets.iter().position(|t| t == picked).unwrap()] = true;
        }
        assert_eq!(seen, vec![true; n]);
    }
}

#[test]
fn random_with_one_target_serves_it() {
    let targets = uris(1);
    let upstream = upstream(1, LoadBalance::Random);
    for _ in 0..20 {
        assert_eq!(upstream.get(), Some(&targets[0]));
    }
}

#[test]
fn random_leaves_the_counter_alone() {
    let upstream = upstream(3, LoadBalance::Random);
    for _ in 0..20 {
        upstream.get();
    }
    assert_eq!(upstream.current_cnt(), 0);
}

#[test]
fn pick_gives_the_target_at_the_index() {
    let targets = uris(3);
    let upstream = upstream(3, LoadBalance::RoundRobin);
    assert_eq!(upstream.pick(0), Some(&targets[0]));
    assert_eq!(upstream.pick(2), Some(&targets[2]));
    assert_eq!(upstream.pick(3), None);
    assert_eq!(upstream.pick(usize::MAX), None);
    assert_eq!(upstream.current_cnt(), 0);
}

#[test]
fn fresh_counter_stands_at_zero() {
    assert_eq!(UpstreamCount::new().current(), 0);
    assert_eq!(UpstreamCount::default().current(), 0);
}

#[test]
fn draw_bound_is_the_number_of_targets() {
    for n in 1..6 {
        assert_eq!(upstream(n, LoadBalance::Random).draw_bound(), n);
        assert_eq!(upstream(n, LoadBalance::RoundRobin).draw_bound(), n);
    }
}

#[test]
fn get_always_gives_a_target() {
    for lb in [LoadBalance::RoundRobin, LoadBalance::Random] {
        for n in 1..5 {
            let targets = uris(n);
            let upstream = upstream(n, lb);
            for _ in 0..(3 * n + 1) {
                let picked = upstream.get().expect("a target is owed");
                assert!(targets.contains(picked));
                assert!(upstream.current_cnt() < n);
            }
        }
    }
}

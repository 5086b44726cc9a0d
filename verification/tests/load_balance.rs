use rpxy_backend::backend::load_balance::{next_count, served_index, LoadBalance};

#[test]
fn default_strategy_is_round_robin() {
    assert_eq!(LoadBalance::default(), LoadBalance::RoundRobin);
}

#[test]
fn next_count_steps_and_wraps() {
    assert_eq!(next_count(0, 3), 1);
    assert_eq!(next_count(1, 3), 2);
    assert_eq!(next_count(2, 3), 0);
}

#[test]
fn next_count_with_one_target_stays_at_zero() {
    assert_eq!(next_count(0, 1), 0);
}

#[test]
fn next_count_sends_a_stray_count_back_to_zero() {
    assert_eq!(next_count(3, 3), 0);
    assert_eq!(next_count(7, 3), 0);
    assert_eq!(next_count(usize::MAX, 3), 0);
    assert_eq!(next_count(usize::MAX, usize::MAX), 0);
    assert_eq!(next_count(0, 0), 0);
    assert_eq!(next_count(5, 0), 0);
}

#[test]
fn next_count_walks_a_whole_cycle() {
    let len = 5;
    let mut count = 0;
    let mut seen = Vec::new();
    for _ in 0..(2 * len + 1) {
        seen.push(count);
        count = next_count(count, len);
    }
    assert_eq!(seen, vec![0, 1, 2, 3, 4, 0, 1, 2, 3, 4, 0]);
}

#[test]
fn any_window_of_a_cycle_serves_each_index_once() {
    let len = 4;
    for start in 0..len {
        let mut count = start;
        let mut window = Vec::new();
        for _ in 0..len {
            window.push(count);
            count = next_count(count, len);
        }
        assert_eq!(window.len(), len);
        assert_eq!(window[0], start);
        window.sort();
        assert_eq!(window, vec![0, 1, 2, 3]);
    }
}

#[test]
fn served_index_is_the_count_inside_the_list() {
    assert_eq!(served_index(0, 3), 0);
    assert_eq!(served_index(1, 3), 1);
    assert_eq!(served_index(2, 3), 2);
    assert_eq!(served_index(0, 1), 0);
}

#[test]
fn served_index_of_a_stray_count_is_the_first() {
    assert_eq!(served_index(3, 3), 0);
    assert_eq!(served_index(4, 3), 0);
    assert_eq!(served_index(usize::MAX, 3), 0);
    assert_eq!(served_index(1, 1), 0);
    assert_eq!(served_index(0, 0), 0);
    assert_eq!(served_index(5, 0), 0);
}

#[test]
fn served_index_follows_the_counter_through_a_cycle() {
    let len = 3;
    let mut count = 0;
    let mut served = Vec::new();
    for _ in 0..(len + 1) {
        served.push(served_index(count, len));
        count = next_count(count, len);
    }
    assert_eq!(served, vec![0, 1, 2, 0]);
}

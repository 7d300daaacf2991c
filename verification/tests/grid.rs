use grmot::wavenumber::harmonic_limit;
use grmot::wavenumber::harmonic_orders;

#[test]
fn limit_takes_smaller_of_request_and_cutoff() {
    assert_eq!(harmonic_limit(5, 3), 3);
    assert_eq!(harmonic_limit(2, 10), 2);
    assert_eq!(harmonic_limit(4, 4), 4);
    assert_eq!(harmonic_limit(0, 9), 0);
}

#[test]
fn negative_request_leaves_cutoff_in_charge() {
    assert_eq!(harmonic_limit(-1, 7), 7);
    assert_eq!(harmonic_limit(i32::MIN, 12), 12);
    assert_eq!(harmonic_limit(-1, usize::MAX), usize::MAX);
    assert_eq!(harmonic_limit(-2, usize::MAX), usize::MAX - 1);
}

#[test]
fn orders_of_empty_grid_hold_only_zero() {
    assert_eq!(harmonic_orders(0), vec![0]);
}

#[test]
fn orders_interleave_negative_and_positive() {
    assert_eq!(harmonic_orders(3), vec![0, -1, 1, -2, 2, -3, 3]);
}

#[test]
fn every_harmonic_appears_exactly_once() {
    let count = 6usize;
    let orders = harmonic_orders(count);
    assert_eq!(orders.len(), 2 * count + 1);
    for h in -(count as i64)..=(count as i64) {
        let hits = orders.iter().filter(|&&o| o == h).count();
        assert_eq!(hits, 1);
        let position = if h < 0 { (-2 * h - 1) as usize } else { (2 * h) as usize };
        assert_eq!(orders[position], h);
    }
}

#[test]
fn grid_is_symmetric_about_zero() {
    let orders = harmonic_orders(5);
    for i in 1..=5usize {
        assert_eq!(orders[2 * i - 1], -orders[2 * i]);
        assert_eq!(orders[2 * i], i as i64);
    }
}

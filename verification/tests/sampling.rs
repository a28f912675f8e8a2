use particles::NumericRange;

#[test]
fn random_stays_in_bounds_over_many_samples() {
    let range = NumericRange::new(-1_000, 2_500);
    for _ in 0..10_000 {
        let v = range.random();
        assert!(v >= -1_000);
        assert!(v <= 2_500);
    }
}

#[test]
fn random_of_degenerate_range_is_its_only_point() {
    let range = NumericRange::new(42, 42);
    for _ in 0..100 {
        assert_eq!(range.random(), 42);
    }
}

#[test]
fn new_keeps_bounds() {
    let range = NumericRange::new(-7, 9);
    assert_eq!(range.min, -7);
    assert_eq!(range.max, 9);
}

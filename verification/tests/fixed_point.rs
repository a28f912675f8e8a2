use particles::math::{fx_mul, sat_add, sat_sub};
use particles::{Vec3, FX_ONE};

#[test]
fn fixed_point_product_rescales() {
    // 2.0 * 0.5 = 1.0
    assert_eq!(fx_mul(2 * FX_ONE, FX_ONE / 2), FX_ONE);
    // 1.5 * -2.0 = -3.0
    assert_eq!(fx_mul(FX_ONE + FX_ONE / 2, -2 * FX_ONE), -3 * FX_ONE);
    // Truncation toward zero.
    assert_eq!(fx_mul(1, 1), 0);
    assert_eq!(fx_mul(-1, 1), 0);
}

#[test]
fn fixed_point_product_saturates() {
    assert_eq!(fx_mul(i64::MAX, 2 * FX_ONE), i64::MAX);
    assert_eq!(fx_mul(i64::MAX, -2 * FX_ONE), i64::MIN);
}

#[test]
fn additions_saturate_at_the_bounds() {
    assert_eq!(sat_add(i64::MAX, 1), i64::MAX);
    assert_eq!(sat_add(i64::MIN, -1), i64::MIN);
    assert_eq!(sat_add(40, 2), 42);
    assert_eq!(sat_sub(i64::MIN, 1), i64::MIN);
    assert_eq!(sat_sub(10, 4), 6);
}

#[test]
fn squared_distance_is_exact_for_small_points() {
    let a = Vec3::new(1, 2, 3);
    let b = Vec3::new(4, 6, 3);
    // (3, 4, 0): 9 + 16 = 25.
    assert_eq!(a.sqr_distance(&b), 25);
    assert_eq!(b.sqr_distance(&a), 25);
    assert_eq!(a.sqr_distance(&a), 0);
}

#[test]
fn vector_operations_are_componentwise() {
    let v = Vec3::new(10, -20, 30).add_sat(Vec3::new(1, 2, 3));
    assert_eq!(v, Vec3::new(11, -18, 33));
    let s = Vec3::new(2 * FX_ONE, -4 * FX_ONE, 0).scale(FX_ONE / 2);
    assert_eq!(s, Vec3::new(FX_ONE, -2 * FX_ONE, 0));
}

use ray_tracing::fx::{
    cabs, cadd, cclamp01, cdiv, cmax, cmin, cmul, cneg, csub, isqrt, powf, powi, sqrt_fx, BOUND,
    ONE, SCALE,
};

#[test]
fn add_and_sub_are_exact_in_range() {
    assert_eq!(cadd(3 * ONE, 4 * ONE), 7 * ONE);
    assert_eq!(csub(3 * ONE, 4 * ONE), -ONE);
    assert_eq!(cadd(-2 * ONE, ONE), -ONE);
}

#[test]
fn add_saturates_at_the_bound() {
    assert_eq!(cadd(BOUND, BOUND), BOUND);
    assert_eq!(csub(-BOUND, BOUND), -BOUND);
}

#[test]
fn mul_truncates_toward_zero() {
    assert_eq!(cmul(2 * ONE, 3 * ONE), 6 * ONE);
    assert_eq!(cmul(ONE / 2, ONE / 2), ONE / 4);
    assert_eq!(cmul(-2 * ONE, 3 * ONE), -6 * ONE);
    assert_eq!(cmul(-2 * ONE, -3 * ONE), 6 * ONE);
    // 3 * 1/3-ish stays below one by truncation
    let third = ONE / 3;
    assert!(cmul(3 * ONE, third) <= ONE);
}

#[test]
fn div_is_mul_inverse_on_exact_values() {
    assert_eq!(cdiv(6 * ONE, 3 * ONE), 2 * ONE);
    assert_eq!(cdiv(-6 * ONE, 3 * ONE), -2 * ONE);
    assert_eq!(cdiv(ONE, 2 * ONE), ONE / 2);
    // division by zero is defined as zero
    assert_eq!(cdiv(5 * ONE, 0), 0);
}

#[test]
fn min_max_abs_neg_clamp() {
    assert_eq!(cmin(3, -5), -5);
    assert_eq!(cmax(3, -5), 3);
    assert_eq!(cabs(-7 * ONE), 7 * ONE);
    assert_eq!(cneg(42), -42);
    assert_eq!(cclamp01(-5), 0);
    assert_eq!(cclamp01(ONE + 5), ONE);
    assert_eq!(cclamp01(123), 123);
}

#[test]
fn integer_square_root_is_floor_sqrt() {
    assert_eq!(isqrt(0), 0);
    assert_eq!(isqrt(1), 1);
    assert_eq!(isqrt(3), 1);
    assert_eq!(isqrt(4), 2);
    assert_eq!(isqrt(1_000_000), 1000);
    assert_eq!(isqrt(999_999), 999);
}

#[test]
fn fixed_point_sqrt_on_squares() {
    assert_eq!(sqrt_fx(4 * ONE), 2 * ONE);
    assert_eq!(sqrt_fx(9 * ONE), 3 * ONE);
    assert_eq!(sqrt_fx(0), 0);
    assert_eq!(sqrt_fx(ONE), ONE);
    // sqrt(2) to within one step
    let r = sqrt_fx(2 * ONE);
    assert!((r - 1482910).abs() <= 1);
}

#[test]
fn whole_powers() {
    assert_eq!(powi(ONE, 100), ONE);
    assert_eq!(powi(ONE / 2, 0), ONE);
    assert_eq!(powi(ONE / 2, 1), ONE / 2);
    assert_eq!(powi(ONE / 2, 2), ONE / 4);
    assert_eq!(powi(0, 3), 0);
}

#[test]
fn fractional_powers_stay_in_the_unit_interval() {
    // x^1 == x up to the square-root chain's rounding
    let x = 3 * ONE / 4;
    let p = powf(x, ONE);
    assert!((p - x).abs() < 200);
    // square root as the exponent one half
    let h = powf(ONE / 4, ONE / 2);
    assert!((h - ONE / 2).abs() < 200);
    // anything to the zero is one
    assert_eq!(powf(x, 0), ONE);
    // gamma-like exponent of a mid grey lands between the input and one
    let g = powf(ONE / 2, SCALE * 4545 / 10000);
    assert!(g > ONE / 2 && g < ONE);
}

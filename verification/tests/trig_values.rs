use procanim::fp::fixed_mul;
use procanim::fp::lerp_fp;
use procanim::fp::rem_euclid_fp;
use procanim::fp::wrap_angle_wide;
use procanim::fp::HALF_PI_FP;
use procanim::fp::PI_FP;
use procanim::fp::QUARTER_PI_FP;
use procanim::fp::SCALE;
use procanim::fp::TWO_PI_FP;
use procanim::trig::cos_deg;
use procanim::trig::cos_fp;
use procanim::trig::deg_to_rad;
use procanim::trig::quarter_sin;
use procanim::trig::sin_deg;
use procanim::trig::sin_fp;

#[test]
fn quarter_table_hits_known_points() {
    assert_eq!(quarter_sin(0), 0);
    assert_eq!(quarter_sin(30), 500_000);
    assert_eq!(quarter_sin(45), 707_107);
    assert_eq!(quarter_sin(60), 866_025);
    assert_eq!(quarter_sin(90), 1_000_000);
}

#[test]
fn degree_sine_folds_by_symmetry() {
    assert_eq!(sin_deg(150), 500_000);
    assert_eq!(sin_deg(210), -500_000);
    assert_eq!(sin_deg(330), -500_000);
    assert_eq!(cos_deg(0), 1_000_000);
    assert_eq!(cos_deg(90), 0);
    assert_eq!(cos_deg(180), -1_000_000);
    assert_eq!(cos_deg(270), 0);
    assert_eq!(cos_deg(60), 500_000);
}

#[test]
fn degree_trig_tracks_the_real_functions() {
    for d in 0..360u32 {
        let real_sin = (d as f64).to_radians().sin() * 1.0e6;
        let real_cos = (d as f64).to_radians().cos() * 1.0e6;
        assert!((sin_deg(d) as f64 - real_sin).abs() <= 1.0, "sin at {d}");
        assert!((cos_deg(d) as f64 - real_cos).abs() <= 1.0, "cos at {d}");
    }
}

#[test]
fn radian_sine_tracks_the_real_function() {
    // Sampled over two turns and at negative and large angles: the series
    // stays within a few ten-thousandths of the real sine.
    let mut samples: Vec<i64> = (-720..720).map(|d: i64| d * 17_453).collect();
    samples.push(123_456_789);
    samples.push(-987_654_321);
    for x in samples {
        let real = (x as f64 / 1.0e6).sin() * 1.0e6;
        let got = sin_fp(x) as f64;
        assert!((got - real).abs() <= 600.0, "sin at {x}: {got} vs {real}");
    }
}

#[test]
fn radian_sine_exact_values() {
    assert_eq!(sin_fp(0), 0);
    assert_eq!(sin_fp(1_000_000), 841_469);
    // The quarter-turn endpoint is pinned exactly, so right angles are exact.
    assert_eq!(sin_fp(HALF_PI_FP), 1_000_000);
    assert_eq!(sin_fp(-HALF_PI_FP), -1_000_000);
    assert_eq!(cos_fp(0), 1_000_000);
    assert_eq!(cos_fp(HALF_PI_FP), 0);
    assert_eq!(cos_fp(PI_FP), -1_000_000);
    assert_eq!(cos_fp(PI_FP + HALF_PI_FP), 0);
}

#[test]
fn angle_constants_are_consistent() {
    assert_eq!(2 * HALF_PI_FP, PI_FP);
    assert_eq!(4 * HALF_PI_FP, TWO_PI_FP);
    assert_eq!(2 * QUARTER_PI_FP, HALF_PI_FP);
}

#[test]
fn degree_conversion_is_exact_at_straight_angles() {
    assert_eq!(deg_to_rad(0), 0);
    assert_eq!(deg_to_rad(90), HALF_PI_FP);
    assert_eq!(deg_to_rad(180), PI_FP);
    assert_eq!(deg_to_rad(270), PI_FP + HALF_PI_FP);
}

#[test]
fn fixed_multiplication_truncates_toward_zero() {
    assert_eq!(fixed_mul(2_000_000, 100_000), 200_000);
    assert_eq!(fixed_mul(-3_000_000, 500_000), -1_500_000);
    assert_eq!(fixed_mul(-1, 1), 0);
    assert_eq!(fixed_mul(999_999, 1), 0);
    assert_eq!(fixed_mul(1_000_001, 999_999), 999_999);
}

#[test]
fn euclidean_remainder_is_never_negative() {
    assert_eq!(rem_euclid_fp(-1, TWO_PI_FP), TWO_PI_FP - 1);
    assert_eq!(rem_euclid_fp(0, TWO_PI_FP), 0);
    assert_eq!(rem_euclid_fp(TWO_PI_FP, TWO_PI_FP), 0);
    assert_eq!(rem_euclid_fp(-TWO_PI_FP, TWO_PI_FP), 0);
    assert_eq!(wrap_angle_wide(-1), TWO_PI_FP - 1);
    assert_eq!(wrap_angle_wide(2 * (TWO_PI_FP as i128) + 5), 5);
}

#[test]
fn interpolation_hits_both_ends_and_the_middle() {
    assert_eq!(lerp_fp(0, 10_000_000, 0), 0);
    assert_eq!(lerp_fp(0, 10_000_000, SCALE), 10_000_000);
    assert_eq!(lerp_fp(0, 10_000_000, 500_000), 5_000_000);
    assert_eq!(lerp_fp(100, 100_000_000_000, SCALE), 100_000_000_000);
    assert_eq!(lerp_fp(2_000_000, 1_000_000, 500_000), 1_500_000);
}

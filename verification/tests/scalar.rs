//! Fixed-point scalar arithmetic, the sine approximation, the square
//! root, and the noise field.

use planetarium::fixed::{
    fp_add, fp_sub, fp_mul, fp_div, fp_abs, fp_lerp, fp_sqrt, sin_fp, cos_fp, tdiv_i64,
    floor_mod_i64, isqrt64, FP_ONE, FP_HALF, FP_LIM, PI_FP, HALF_PI_FP, TWO_PI_FP,
};
use planetarium::noise::NoiseField;

#[test]
fn fp_add_and_saturation() {
    assert_eq!(fp_add(65536, 65536), 131072);
    assert_eq!(fp_add(FP_LIM, FP_LIM), FP_LIM);
    assert_eq!(fp_sub(-FP_LIM, FP_LIM), -FP_LIM);
    assert_eq!(fp_sub(196608, 65536), 131072);
}

#[test]
fn fp_mul_exact_products() {
    // 2.0 * 3.0 == 6.0
    assert_eq!(fp_mul(131072, 196608), 393216);
    // 0.5 * 0.5 == 0.25
    assert_eq!(fp_mul(FP_HALF, FP_HALF), 16384);
    // -2.0 * 3.0 == -6.0
    assert_eq!(fp_mul(-131072, 196608), -393216);
}

#[test]
fn fp_div_exact_quotients() {
    assert_eq!(fp_div(393216, 131072), 196608);
    assert_eq!(fp_div(-393216, 131072), -196608);
    assert_eq!(fp_div(65536, 131072), FP_HALF);
}

#[test]
fn truncating_division_rounds_toward_zero() {
    assert_eq!(tdiv_i64(7, 2), 3);
    assert_eq!(tdiv_i64(-7, 2), -3);
}

#[test]
fn floor_mod_is_always_nonnegative() {
    assert_eq!(floor_mod_i64(7, 5), 2);
    assert_eq!(floor_mod_i64(-7, 5), 3);
    assert_eq!(floor_mod_i64(-5, 5), 0);
}

#[test]
fn lerp_endpoints_and_midpoint() {
    assert_eq!(fp_lerp(100, 300, 0), 100);
    assert_eq!(fp_lerp(100, 300, FP_ONE), 300);
    assert_eq!(fp_lerp(100, 300, FP_HALF), 200);
}

#[test]
fn isqrt_exact_squares() {
    assert_eq!(isqrt64(0), 0);
    assert_eq!(isqrt64(1), 1);
    assert_eq!(isqrt64(15), 3);
    assert_eq!(isqrt64(16), 4);
    assert_eq!(isqrt64(u64::MAX), 4294967295);
}

#[test]
fn fp_sqrt_exact_and_clamped() {
    // sqrt(4.0) == 2.0
    assert_eq!(fp_sqrt(262144), 131072);
    // sqrt(1.0) == 1.0
    assert_eq!(fp_sqrt(65536), 65536);
    // negative input is treated as zero
    assert_eq!(fp_sqrt(-5), 0);
}

#[test]
fn sine_is_exact_at_the_axis_points() {
    assert_eq!(sin_fp(0), 0);
    assert_eq!(sin_fp(HALF_PI_FP), FP_ONE);
    assert_eq!(sin_fp(PI_FP), 0);
    assert_eq!(sin_fp(PI_FP + HALF_PI_FP), -FP_ONE);
    // a whole period later the value repeats exactly
    assert_eq!(sin_fp(HALF_PI_FP), sin_fp(HALF_PI_FP + TWO_PI_FP));
}

#[test]
fn cosine_leads_sine_by_a_quarter_period() {
    assert_eq!(cos_fp(0), FP_ONE);
    assert_eq!(cos_fp(0), sin_fp(HALF_PI_FP));
    assert_eq!(cos_fp(PI_FP), -FP_ONE);
}

#[test]
fn sine_stays_in_unit_range() {
    let mut a: i64 = -500000;
    while a < 500000 {
        let s = sin_fp(a);
        assert!((-FP_ONE..=FP_ONE).contains(&s));
        a += 12345;
    }
}

#[test]
fn fp_abs_both_signs() {
    assert_eq!(fp_abs(-42), 42);
    assert_eq!(fp_abs(42), 42);
}

#[test]
fn noise_is_deterministic() {
    let n1 = NoiseField::with_seed(1337);
    let n2 = NoiseField::with_seed(1337);
    assert_eq!(n1.get_noise_2d(123456, -654321), n2.get_noise_2d(123456, -654321));
    assert_eq!(
        n1.get_noise_3d(123456, -654321, 777),
        n2.get_noise_3d(123456, -654321, 777)
    );
}

#[test]
fn noise_stays_in_unit_range() {
    let n = NoiseField::with_seed(1337);
    let mut x: i64 = -300000;
    while x < 300000 {
        let v2 = n.get_noise_2d(x, x / 3);
        let v3 = n.get_noise_3d(x, x / 3, -x);
        assert!((-FP_ONE..=FP_ONE).contains(&v2));
        assert!((-FP_ONE..=FP_ONE).contains(&v3));
        x += 23456;
    }
}

#[test]
fn noise_varies_across_the_field() {
    let n = NoiseField::with_seed(1337);
    let mut seen = Vec::new();
    let mut x: i64 = 0;
    while x < 10 * FP_ONE {
        seen.push(n.get_noise_2d(x, 0));
        x += FP_ONE / 2;
    }
    let first = seen[0];
    assert!(seen.iter().any(|v| *v != first), "noise is constant");
}

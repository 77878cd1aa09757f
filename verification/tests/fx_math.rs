//! Numeric checks of the fixed-point scalar layer against ordinary
//! floating-point arithmetic.

use phobia::fx::{
    fx_abs, fx_add, fx_clamp_unit, fx_cos, fx_div, fx_mul, fx_sign, fx_sin, fx_sub, fx_wrap_angle,
    isqrt_u128, FX_LIMIT, FX_ONE, FX_TWO_PI,
};
use phobia::importer::fx_from_bits;

fn close(fixed: i64, real: f64, eps: f64) -> bool {
    (fixed as f64 / FX_ONE as f64 - real).abs() < eps
}

#[test]
fn add_sub_exact() {
    assert_eq!(fx_add(1_500_000, 250_000), 1_750_000);
    assert_eq!(fx_sub(1_500_000, 250_000), 1_250_000);
    assert_eq!(fx_add(FX_LIMIT, FX_LIMIT), FX_LIMIT);
    assert_eq!(fx_sub(-FX_LIMIT, FX_LIMIT), -FX_LIMIT);
}

#[test]
fn mul_div_exact() {
    assert_eq!(fx_mul(2_000_000, 3_000_000), 6_000_000);
    assert_eq!(fx_mul(-2_000_000, 3_000_000), -6_000_000);
    assert_eq!(fx_mul(1_500_000, 1_500_000), 2_250_000);
    assert_eq!(fx_div(1_000_000, 3_000_000), 333_333);
    assert_eq!(fx_div(-1_000_000, 3_000_000), -333_333);
    assert_eq!(fx_div(1_000_000, -3_000_000), -333_333);
}

#[test]
fn sign_abs_clamp() {
    assert_eq!(fx_sign(17), 1);
    assert_eq!(fx_sign(-17), -1);
    assert_eq!(fx_sign(0), 0);
    assert_eq!(fx_abs(-5), 5);
    assert_eq!(fx_clamp_unit(2_000_000), FX_ONE);
    assert_eq!(fx_clamp_unit(-2_000_000), -FX_ONE);
    assert_eq!(fx_clamp_unit(123), 123);
}

#[test]
fn wrap_angle_into_full_turn() {
    assert_eq!(fx_wrap_angle(0), 0);
    assert_eq!(fx_wrap_angle(FX_TWO_PI), 0);
    assert_eq!(fx_wrap_angle(FX_TWO_PI + 5), 5);
    assert_eq!(fx_wrap_angle(-5), FX_TWO_PI - 5);
    let many: i64 = 17 * FX_TWO_PI + 123_456;
    assert_eq!(fx_wrap_angle(many), 123_456);
    assert_eq!(fx_wrap_angle(-many), FX_TWO_PI - 123_456);
}

#[test]
fn isqrt_floor() {
    assert_eq!(isqrt_u128(0), 0);
    assert_eq!(isqrt_u128(1), 1);
    assert_eq!(isqrt_u128(3), 1);
    assert_eq!(isqrt_u128(4), 2);
    assert_eq!(isqrt_u128(1_000_000_000_000), 1_000_000);
    assert_eq!(isqrt_u128(2_000_000_000_000), 1_414_213);
}

#[test]
fn sine_and_cosine_match_reals() {
    let mut a: i64 = 0;
    while a < FX_TWO_PI {
        let real = a as f64 / FX_ONE as f64;
        assert!(close(fx_sin(a), real.sin(), 1e-3), "sin at {}", a);
        assert!(close(fx_cos(a), real.cos(), 1e-3), "cos at {}", a);
        a += 100_000;
    }
}

#[test]
fn float_bits_decode() {
    assert_eq!(fx_from_bits(0.0f32.to_bits()), 0);
    assert_eq!(fx_from_bits(1.0f32.to_bits()), 1_000_000);
    assert_eq!(fx_from_bits((-1.0f32).to_bits()), -1_000_000);
    assert_eq!(fx_from_bits(1.5f32.to_bits()), 1_500_000);
    assert_eq!(fx_from_bits((-2.25f32).to_bits()), -2_250_000);
    assert_eq!(fx_from_bits(0.5f32.to_bits()), 500_000);
    // 0.1 is not exact in binary32; the decoded value is the truncated
    // reading of the stored value, within one unit of 0.1.
    let tenth = fx_from_bits(0.1f32.to_bits());
    assert!((tenth - 100_000).abs() <= 1, "0.1 decoded as {}", tenth);
    // Values beyond the scalar range saturate.
    assert_eq!(fx_from_bits(3.0e8f32.to_bits()), FX_LIMIT);
    assert_eq!(fx_from_bits((-3.0e8f32).to_bits()), -FX_LIMIT);
    assert_eq!(fx_from_bits(f32::INFINITY.to_bits()), FX_LIMIT);
    assert_eq!(fx_from_bits(f32::NEG_INFINITY.to_bits()), -FX_LIMIT);
    // Subnormals lie far below the fixed-point resolution.
    assert_eq!(fx_from_bits(1.0e-40f32.to_bits()), 0);
    // A sweep of ordinary values stays within one unit of the real
    // product with the scale.
    let mut x: f32 = -10.0;
    while x < 10.0 {
        let decoded = fx_from_bits(x.to_bits());
        let expected = (x as f64 * FX_ONE as f64).trunc() as i64;
        assert!((decoded - expected).abs() <= 1, "decode {} gave {}", x, decoded);
        x += 0.37;
    }
}

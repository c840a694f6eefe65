use double_pendulum::fixed::{
    fx_add, fx_cos, fx_div, fx_mul, fx_neg, fx_sin, fx_sub, Fx, FX_HALF_PI, FX_ONE, FX_PI, FX_TWO,
};

fn fx(bits: i64) -> Fx {
    Fx::from_bits(bits)
}

fn to_f64(v: Fx) -> f64 {
    v.bits as f64 / 4294967296.0
}

#[test]
fn add_and_sub_are_exact_within_range() {
    assert_eq!(fx_add(fx(FX_ONE), fx(FX_TWO)).bits, FX_ONE + FX_TWO);
    assert_eq!(fx_sub(fx(FX_ONE), fx(FX_TWO)).bits, FX_ONE - FX_TWO);
    assert_eq!(fx_add(fx(-5), fx(5)).bits, 0);
    assert_eq!(Fx::from_int(3).bits, 3 * FX_ONE);
    assert_eq!(Fx::from_int(-2).bits, -FX_TWO);
}

#[test]
fn add_saturates_at_the_extremes() {
    assert_eq!(fx_add(fx(i64::MAX), fx(1)).bits, i64::MAX);
    assert_eq!(fx_add(fx(i64::MIN), fx(-1)).bits, i64::MIN);
    assert_eq!(fx_sub(fx(i64::MIN), fx(1)).bits, i64::MIN);
    assert_eq!(fx_neg(fx(i64::MIN)).bits, i64::MAX);
}

#[test]
fn mul_truncates_toward_zero() {
    // 1.5 * 1.5 = 2.25
    let one_half = FX_ONE + FX_ONE / 2;
    assert_eq!(fx_mul(fx(one_half), fx(one_half)).bits, 2 * FX_ONE + FX_ONE / 4);
    assert_eq!(fx_mul(fx(FX_ONE), fx(-FX_TWO)).bits, -FX_TWO);
    assert_eq!(fx_mul(fx(0), fx(i64::MAX)).bits, 0);
}

#[test]
fn mul_saturates_on_large_products() {
    assert_eq!(fx_mul(fx(i64::MAX), fx(i64::MAX)).bits, i64::MAX);
    assert_eq!(fx_mul(fx(i64::MAX), fx(i64::MIN)).bits, i64::MIN);
}

#[test]
fn div_matches_truncated_quotient() {
    // 1 / 3 in Q31.32
    assert_eq!(fx_div(fx(FX_ONE), fx(3 * FX_ONE)).bits, 1431655765);
    assert_eq!(fx_div(fx(-FX_TWO), fx(FX_TWO)).bits, -FX_ONE);
}

#[test]
fn div_by_zero_saturates_by_sign() {
    assert_eq!(fx_div(fx(5), fx(0)).bits, i64::MAX);
    assert_eq!(fx_div(fx(-5), fx(0)).bits, i64::MIN);
    assert_eq!(fx_div(fx(0), fx(0)).bits, 0);
}

#[test]
fn sine_of_zero_and_pi_are_exact_zeros() {
    assert_eq!(fx_sin(fx(0)).bits, 0);
    assert_eq!(fx_sin(fx(FX_PI)).bits, 0);
}

#[test]
fn sine_of_one_radian_golden_value() {
    assert_eq!(fx_sin(fx(FX_ONE)).bits, 3614090360);
    assert_eq!(fx_cos(fx(FX_ONE)).bits, 2320580736);
}

#[test]
fn sine_tracks_the_real_function_closely() {
    let mut worst: f64 = 0.0;
    let mut i: i64 = -700;
    while i <= 700 {
        let x = i as f64 / 100.0;
        let got = to_f64(fx_sin(fx((x * 4294967296.0).round() as i64)));
        let err = (got - x.sin()).abs();
        if err > worst {
            worst = err;
        }
        i += 1;
    }
    assert!(worst < 1e-6, "worst sine error {} too large", worst);
}

#[test]
fn sine_reduces_large_angles() {
    // sin is periodic with period 2*pi; a handful of turns away must agree
    // closely with the base angle.
    let two_pi: i64 = 2 * FX_PI;
    let base = fx_sin(fx(FX_ONE)).bits;
    let shifted = fx_sin(fx(FX_ONE + 1000 * two_pi)).bits;
    assert_eq!(base, shifted);
}

#[test]
fn cosine_of_half_pi_is_tiny() {
    // cos(pi/2) is zero in the reals; the fixed-point value stays within a
    // few billionths.
    let c = fx_cos(fx(FX_HALF_PI)).bits;
    assert!(c.abs() < 100);
}

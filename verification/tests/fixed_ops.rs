use euler_curve::fixed::fx_div;
use euler_curve::fixed::fx_mul;
use euler_curve::fixed::ONE;

#[test]
fn fx_mul_whole_units() {
    // 2.5 * 2.0 == 5.0
    assert_eq!(fx_mul(2_500_000, 2_000_000), 5_000_000);
    // 1.0 is the multiplicative unit.
    assert_eq!(fx_mul(ONE, 3_141_592), 3_141_592);
    assert_eq!(fx_mul(3_141_592, ONE), 3_141_592);
}

#[test]
fn fx_mul_signs() {
    assert_eq!(fx_mul(-2_500_000, 2_000_000), -5_000_000);
    assert_eq!(fx_mul(2_500_000, -2_000_000), -5_000_000);
    assert_eq!(fx_mul(-2_500_000, -2_000_000), 5_000_000);
}

#[test]
fn fx_mul_rounds_toward_zero() {
    // (1 micro) * (1 micro) is far below one micro and truncates to zero.
    assert_eq!(fx_mul(1, 1), 0);
    assert_eq!(fx_mul(-1, 1), 0);
    // 1.5 * 0.333333 = 0.4999995, truncated to 0.499999.
    assert_eq!(fx_mul(1_500_000, 333_333), 499_999);
    assert_eq!(fx_mul(-1_500_000, 333_333), -499_999);
}

#[test]
fn fx_div_whole_units() {
    assert_eq!(fx_div(5_000_000, 2_000_000), 2_500_000);
    assert_eq!(fx_div(-5_000_000, 2_000_000), -2_500_000);
    assert_eq!(fx_div(5_000_000, -2_000_000), -2_500_000);
    assert_eq!(fx_div(-5_000_000, -2_000_000), 2_500_000);
}

#[test]
fn fx_div_rounds_toward_zero() {
    // 1 / 3 = 0.333333...
    assert_eq!(fx_div(1_000_000, 3_000_000), 333_333);
    assert_eq!(fx_div(-1_000_000, 3_000_000), -333_333);
}

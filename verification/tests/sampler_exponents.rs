use euler_curve::complex::Complex;
use euler_curve::params::Params;
use euler_curve::sampler::exponents;
use euler_curve::sampler::t_for_index;

#[test]
fn one_exponent_per_sample_in_order() {
    let p = Params::defaults();
    let exps = exponents(p.direction, p.sample_count, p.interval_start, p.interval_end);
    assert_eq!(exps.len(), 100);
    // With direction i, the exponent at index k is i * t_k, so the imaginary
    // parts carry the parameter values in increasing order.
    let mut k: usize = 1;
    while k < exps.len() {
        assert!(exps[k - 1].im <= exps[k].im);
        assert_eq!(exps[k].re, 0);
        k += 1;
    }
}

#[test]
fn first_exponent_is_zero() {
    let p = Params::defaults();
    let exps = exponents(p.direction, p.sample_count, p.interval_start, p.interval_end);
    assert_eq!(exps[0], Complex::zero());
}

#[test]
fn half_turn_exponent_is_i_pi() {
    let p = Params::defaults();
    // t_50 of [0, 2*pi) in 100 steps is pi, truncated to micro-units.
    let t = t_for_index(p.interval_start, p.interval_end, 50, p.sample_count);
    assert_eq!(t, 3_141_592);
    let exps = exponents(p.direction, p.sample_count, p.interval_start, p.interval_end);
    assert_eq!(exps[50].re, 0);
    assert_eq!(exps[50].im, 3_141_592);
}

#[test]
fn upper_endpoint_is_never_evaluated() {
    let p = Params::defaults();
    let exps = exponents(p.direction, p.sample_count, p.interval_start, p.interval_end);
    let last = exps[99];
    // t_99 = 2*pi * 99/100 < 2*pi.
    assert_eq!(last.im, 6_220_353);
    assert!(last.im < p.interval_end);
}

#[test]
fn general_direction_scales_both_components() {
    // direction 2 - 0.5i over [0, 1) in 4 steps: t_2 = 0.5.
    let direction = Complex::new(2_000_000, -500_000);
    let exps = exponents(direction, 4, 0, 1_000_000);
    assert_eq!(exps.len(), 4);
    assert_eq!(exps[0], Complex::zero());
    assert_eq!(exps[2].re, 1_000_000);
    assert_eq!(exps[2].im, -250_000);
}

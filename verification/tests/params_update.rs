use euler_curve::input::InputSnapshot;
use euler_curve::params::Params;
use euler_curve::params::DEFAULT_STEP;
use euler_curve::params::E_FIXED;
use euler_curve::params::TAU_FIXED;
use euler_curve::fixed::ONE;

#[test]
fn defaults_are_canonical() {
    let p = Params::defaults();
    assert_eq!(p.base.re, E_FIXED);
    assert_eq!(p.base.im, 0);
    assert_eq!(p.direction.re, 0);
    assert_eq!(p.direction.im, ONE);
    assert_eq!(p.sample_count, 100);
    assert_eq!(p.interval_start, 0);
    assert_eq!(p.interval_end, TAU_FIXED);
}

#[test]
fn idle_update_is_identity() {
    let mut p = Params::defaults();
    p.update(&InputSnapshot::none(), DEFAULT_STEP);
    let q = Params::defaults();
    assert_eq!(p.base, q.base);
    assert_eq!(p.direction, q.direction);
    assert_eq!(p.sample_count, q.sample_count);
    assert_eq!(p.interval_start, q.interval_start);
    assert_eq!(p.interval_end, q.interval_end);
}

#[test]
fn held_flag_accumulates_per_frame() {
    let mut p = Params::defaults();
    let mut input = InputSnapshot::none();
    input.base_re_pos = true;
    let frames: u32 = 40;
    let mut i: u32 = 0;
    while i < frames {
        p.update(&input, DEFAULT_STEP);
        i += 1;
    }
    // 40 frames of 0.025 units move the real part by exactly one unit.
    assert_eq!(p.base.re, E_FIXED + ONE);
    assert_eq!(p.base.im, 0);
    assert_eq!(p.direction.re, 0);
    assert_eq!(p.direction.im, ONE);
}

#[test]
fn opposed_flags_cancel() {
    let mut p = Params::defaults();
    let mut input = InputSnapshot::none();
    input.base_re_pos = true;
    input.base_re_neg = true;
    p.update(&input, DEFAULT_STEP);
    assert_eq!(p.base.re, E_FIXED);
}

#[test]
fn combined_flags_equal_sequential_updates() {
    let mut combined = Params::defaults();
    let mut input = InputSnapshot::none();
    input.base_re_pos = true;
    input.base_im_neg = true;
    input.dir_re_neg = true;
    input.dir_im_pos = true;
    combined.update(&input, DEFAULT_STEP);

    // The same four adjustments applied one flag per frame, in a different
    // order, land on the same parameters.
    let mut sequential = Params::defaults();
    let mut a = InputSnapshot::none();
    a.dir_im_pos = true;
    sequential.update(&a, DEFAULT_STEP);
    let mut b = InputSnapshot::none();
    b.base_im_neg = true;
    sequential.update(&b, DEFAULT_STEP);
    let mut c = InputSnapshot::none();
    c.base_re_pos = true;
    sequential.update(&c, DEFAULT_STEP);
    let mut d = InputSnapshot::none();
    d.dir_re_neg = true;
    sequential.update(&d, DEFAULT_STEP);

    assert_eq!(combined.base, sequential.base);
    assert_eq!(combined.direction, sequential.direction);
    assert_eq!(combined.base.re, E_FIXED + DEFAULT_STEP);
    assert_eq!(combined.base.im, -DEFAULT_STEP);
    assert_eq!(combined.direction.re, -DEFAULT_STEP);
    assert_eq!(combined.direction.im, ONE + DEFAULT_STEP);
}

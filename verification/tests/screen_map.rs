use euler_curve::complex::Complex;
use euler_curve::screen::from_screen;
use euler_curve::screen::to_screen;
use euler_curve::screen::ScreenConfig;

#[test]
fn origin_maps_to_window_center_exactly() {
    let cfg = ScreenConfig::defaults();
    let p = to_screen(Complex::zero(), &cfg);
    // An 800 by 600 window: center (400, 300) pixels, in micro-pixels.
    assert_eq!(p.x, 400_000_000);
    assert_eq!(p.y, 300_000_000);
}

#[test]
fn unit_positions_map_with_flip() {
    let cfg = ScreenConfig::defaults();
    // 1 + 0i sits one hundred pixels right of center.
    let one = to_screen(Complex::new(1_000_000, 0), &cfg);
    assert_eq!(one.x, 500_000_000);
    assert_eq!(one.y, 300_000_000);
    // 0 + 1i sits one hundred pixels above center: smaller y in pixel space.
    let i_unit = to_screen(Complex::new(0, 1_000_000), &cfg);
    assert_eq!(i_unit.x, 400_000_000);
    assert_eq!(i_unit.y, 200_000_000);
}

#[test]
fn map_is_deterministic() {
    let cfg = ScreenConfig::defaults();
    let v = Complex::new(2_718_282, -1_234_567);
    let a = to_screen(v, &cfg);
    let b = to_screen(v, &cfg);
    assert_eq!(a, b);
}

#[test]
fn round_trip_returns_the_value() {
    let cfg = ScreenConfig::defaults();
    let v = Complex::new(2_718_282, -1_234_567);
    let p = to_screen(v, &cfg);
    let back = from_screen(p, &cfg);
    assert_eq!(back, v);
}

#[test]
fn center_maps_back_to_origin() {
    let cfg = ScreenConfig::defaults();
    let back = from_screen(to_screen(Complex::zero(), &cfg), &cfg);
    assert_eq!(back, Complex::zero());
}

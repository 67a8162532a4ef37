use euler_curve::complex::Complex;
use euler_curve::params::Params;
use euler_curve::scene::render;
use euler_curve::scene::Color;
use euler_curve::scene::DrawCmd;
use euler_curve::scene::RenderOptions;
use euler_curve::screen::ScreenConfig;

#[test]
fn frame_layout_with_axes_and_direction() {
    let params = Params::defaults();
    let cfg = ScreenConfig::defaults();
    let samples = vec![Complex::new(1_000_000, 0), Complex::new(0, -1_000_000)];
    let opts = RenderOptions { draw_axes: true, show_direction: true };
    let cmds = render(&params, &samples, opts, &cfg);
    // Clear, two axes, four landmarks, two references, two live markers,
    // two curve points, present.
    assert_eq!(cmds.len(), 14);
    assert!(matches!(cmds[0], DrawCmd::Clear { color: Color::Black }));
    assert!(matches!(cmds[1], DrawCmd::Line { color: Color::White, .. }));
    assert!(matches!(cmds[2], DrawCmd::Line { color: Color::White, .. }));
    assert!(matches!(cmds[13], DrawCmd::Present));
}

#[test]
fn axis_lines_span_the_window_through_center() {
    let params = Params::defaults();
    let cfg = ScreenConfig::defaults();
    let samples: Vec<Complex> = Vec::new();
    let opts = RenderOptions { draw_axes: true, show_direction: true };
    let cmds = render(&params, &samples, opts, &cfg);
    match cmds[1] {
        DrawCmd::Line { a, b, color } => {
            assert_eq!(a.x, 0);
            assert_eq!(a.y, 300_000_000);
            assert_eq!(b.x, 800_000_000);
            assert_eq!(b.y, 300_000_000);
            assert_eq!(color, Color::White);
        }
        _ => panic!("expected the real axis line"),
    }
    match cmds[2] {
        DrawCmd::Line { a, b, .. } => {
            assert_eq!(a.x, 400_000_000);
            assert_eq!(a.y, 0);
            assert_eq!(b.x, 400_000_000);
            assert_eq!(b.y, 600_000_000);
        }
        _ => panic!("expected the imaginary axis line"),
    }
}

#[test]
fn landmarks_and_markers_sit_at_mapped_positions() {
    let params = Params::defaults();
    let cfg = ScreenConfig::defaults();
    let samples: Vec<Complex> = Vec::new();
    let opts = RenderOptions { draw_axes: true, show_direction: true };
    let cmds = render(&params, &samples, opts, &cfg);
    // The landmark at 1 + 0i: one hundred pixels right of center.
    match cmds[3] {
        DrawCmd::Circle { center, radius, color } => {
            assert_eq!(center.x, 500_000_000);
            assert_eq!(center.y, 300_000_000);
            assert_eq!(radius, 3_000_000);
            assert_eq!(color, Color::White);
        }
        _ => panic!("expected the landmark at 1"),
    }
    // The small red reference at the natural-log base on the real axis.
    match cmds[8] {
        DrawCmd::Circle { center, radius, color } => {
            assert_eq!(center.x, 671_828_200);
            assert_eq!(center.y, 300_000_000);
            assert_eq!(radius, 1_500_000);
            assert_eq!(color, Color::Red);
        }
        _ => panic!("expected the reference marker at e"),
    }
    // The live base marker coincides with the reference while unperturbed.
    match cmds[10] {
        DrawCmd::Circle { center, radius, color } => {
            assert_eq!(center.x, 671_828_200);
            assert_eq!(center.y, 300_000_000);
            assert_eq!(radius, 3_000_000);
            assert_eq!(color, Color::Red);
        }
        _ => panic!("expected the live base marker"),
    }
}

#[test]
fn curve_points_follow_in_sample_order() {
    let params = Params::defaults();
    let cfg = ScreenConfig::defaults();
    let samples = vec![Complex::new(1_000_000, 0), Complex::new(0, -1_000_000)];
    let opts = RenderOptions { draw_axes: false, show_direction: false };
    let cmds = render(&params, &samples, opts, &cfg);
    // Clear, four landmarks, two references, one live marker, two curve
    // points, present.
    assert_eq!(cmds.len(), 11);
    match cmds[8] {
        DrawCmd::Circle { center, radius, color } => {
            assert_eq!(center.x, 500_000_000);
            assert_eq!(center.y, 300_000_000);
            assert_eq!(radius, 1_000_000);
            assert_eq!(color, Color::White);
        }
        _ => panic!("expected the first curve point"),
    }
    match cmds[9] {
        DrawCmd::Circle { center, radius, color } => {
            assert_eq!(center.x, 400_000_000);
            assert_eq!(center.y, 400_000_000);
            assert_eq!(radius, 1_000_000);
            assert_eq!(color, Color::White);
        }
        _ => panic!("expected the second curve point"),
    }
    assert!(matches!(cmds[10], DrawCmd::Present));
}

#[test]
fn moving_the_base_moves_only_its_marker() {
    let mut params = Params::defaults();
    let cfg = ScreenConfig::defaults();
    let samples: Vec<Complex> = Vec::new();
    let opts = RenderOptions { draw_axes: true, show_direction: true };
    params.base = Complex::new(0, 0);
    let cmds = render(&params, &samples, opts, &cfg);
    match cmds[10] {
        DrawCmd::Circle { center, .. } => {
            assert_eq!(center.x, 400_000_000);
            assert_eq!(center.y, 300_000_000);
        }
        _ => panic!("expected the live base marker"),
    }
    // The unperturbed red reference stays at e.
    match cmds[8] {
        DrawCmd::Circle { center, .. } => {
            assert_eq!(center.x, 671_828_200);
        }
        _ => panic!("expected the reference marker at e"),
    }
}

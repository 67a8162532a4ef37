//! The scene renderer: lays out one frame as a list of drawing commands in
//! pixel space — clear, optional axes, the unit-circle landmarks, the
//! unperturbed reference markers, the live parameter markers, the sampled
//! curve as a point cloud, and a final present. The surrounding event loop
//! executes the commands on a real drawing surface in this exact order.
use vstd::prelude::*;

use crate::complex::complex_in_range;
use crate::complex::Complex;
use crate::complex::ComplexView;
use crate::fixed::ONE;
use crate::params::Params;
use crate::params::ParamsView;
use crate::params::E_FIXED;
use crate::screen::to_screen;
use crate::screen::to_screen_view;
use crate::screen::ScreenConfig;
use crate::screen::ScreenConfigView;
use crate::screen::ScreenPoint;
use crate::screen::ScreenPointView;

verus! {

/// Radius of the live parameter markers and unit landmarks, in micro-pixels.
pub const MARKER_RADIUS: i64 = 3_000_000;

/// Radius of the small unperturbed reference markers, in micro-pixels.
pub const REFERENCE_RADIUS: i64 = 1_500_000;

/// Radius of one sampled curve point, in micro-pixels.
pub const CURVE_RADIUS: i64 = 1_000_000;

/// The fixed palette the scene draws with.
#[derive(Clone, Copy, PartialEq, Eq, Structural, Debug)]
pub enum Color {
    Black,
    White,
    Green,
    Red,
}

/// One primitive drawing command, in micro-pixel coordinates.
#[derive(Clone, Copy, PartialEq, Eq, Structural, Debug)]
pub enum DrawCmd {
    /// Clear the whole surface to a color.
    Clear { color: Color },
    /// Draw a one-pixel-wide line segment.
    Line { a: ScreenPoint, b: ScreenPoint, color: Color },
    /// Draw a filled circle.
    Circle { center: ScreenPoint, radius: i64, color: Color },
    /// Flush the finished frame to the viewer.
    Present,
}

/// The mathematical reading of a `DrawCmd`.
pub enum DrawCmdView {
    Clear { color: Color },
    Line { a: ScreenPointView, b: ScreenPointView, color: Color },
    Circle { center: ScreenPointView, radius: int, color: Color },
    Present,
}

impl View for DrawCmd {
    type V = DrawCmdView;

    open spec fn view(&self) -> DrawCmdView {
        match *self {
            DrawCmd::Clear { color } => DrawCmdView::Clear { color },
            DrawCmd::Line { a, b, color } => DrawCmdView::Line { a: a@, b: b@, color },
            DrawCmd::Circle { center, radius, color } => DrawCmdView::Circle {
                center: center@,
                radius: radius as int,
                color,
            },
            DrawCmd::Present => DrawCmdView::Present,
        }
    }
}

/// Which optional parts of the scene are drawn.
#[derive(Clone, Copy, PartialEq, Eq, Structural, Debug)]
pub struct RenderOptions {
    /// Draw the real and imaginary axis lines.
    pub draw_axes: bool,
    /// Draw the live direction marker (the direction is interactive).
    pub show_direction: bool,
}

/// The two full-extent axis lines through the window center.
pub open spec fn axis_cmds(cfg: ScreenConfigView) -> Seq<DrawCmdView> {
    seq![
        DrawCmdView::Line {
            a: ScreenPointView { x: 0, y: cfg.center_y() },
            b: ScreenPointView { x: cfg.width_px * (ONE as int), y: cfg.center_y() },
            color: Color::White,
        },
        DrawCmdView::Line {
            a: ScreenPointView { x: cfg.center_x(), y: 0 },
            b: ScreenPointView { x: cfg.center_x(), y: cfg.height_px * (ONE as int) },
            color: Color::White,
        },
    ]
}

/// A filled circle at the screen position of a complex value.
pub open spec fn circle_at(v: ComplexView, radius: int, color: Color, cfg: ScreenConfigView)
    -> DrawCmdView {
    DrawCmdView::Circle { center: to_screen_view(v, cfg), radius, color }
}

/// The four unit-circle landmarks: white markers at 1, i, -1 and -i.
pub open spec fn unit_marker_cmds(cfg: ScreenConfigView) -> Seq<DrawCmdView> {
    seq![
        circle_at(ComplexView { re: ONE as int, im: 0 }, MARKER_RADIUS as int, Color::White, cfg),
        circle_at(ComplexView { re: 0, im: ONE as int }, MARKER_RADIUS as int, Color::White, cfg),
        circle_at(ComplexView { re: -(ONE as int), im: 0 }, MARKER_RADIUS as int, Color::White, cfg),
        circle_at(ComplexView { re: 0, im: -(ONE as int) }, MARKER_RADIUS as int, Color::White, cfg),
    ]
}

/// The unperturbed reference positions: a small green marker at i and a small
/// red marker at the natural-log base on the real axis.
pub open spec fn reference_cmds(cfg: ScreenConfigView) -> Seq<DrawCmdView> {
    seq![
        circle_at(ComplexView { re: 0, im: ONE as int }, REFERENCE_RADIUS as int, Color::Green, cfg),
        circle_at(
            ComplexView { re: E_FIXED as int, im: 0 },
            REFERENCE_RADIUS as int,
            Color::Red,
            cfg,
        ),
    ]
}

/// The live parameter markers: the direction in green when interactive, then
/// the base in red.
pub open spec fn live_marker_cmds(p: ParamsView, opts: RenderOptions, cfg: ScreenConfigView)
    -> Seq<DrawCmdView> {
    (if opts.show_direction {
        seq![circle_at(p.direction, MARKER_RADIUS as int, Color::Green, cfg)]
    } else {
        Seq::<DrawCmdView>::empty()
    }) + seq![circle_at(p.base, MARKER_RADIUS as int, Color::Red, cfg)]
}

/// Everything the frame draws before the curve itself.
pub open spec fn scene_head(p: ParamsView, opts: RenderOptions, cfg: ScreenConfigView)
    -> Seq<DrawCmdView> {
    seq![DrawCmdView::Clear { color: Color::Black }] + (if opts.draw_axes {
        axis_cmds(cfg)
    } else {
        Seq::<DrawCmdView>::empty()
    }) + unit_marker_cmds(cfg) + reference_cmds(cfg) + live_marker_cmds(p, opts, cfg)
}

/// The sampled curve as one small white circle per sample, in sample order.
pub open spec fn curve_cmds(samples: Seq<ComplexView>, cfg: ScreenConfigView) -> Seq<DrawCmdView> {
    Seq::new(samples.len(), |i: int| circle_at(samples[i], CURVE_RADIUS as int, Color::White, cfg))
}

/// The whole frame: head, curve, present.
pub open spec fn scene_view(
    p: ParamsView,
    samples: Seq<ComplexView>,
    opts: RenderOptions,
    cfg: ScreenConfigView,
) -> Seq<DrawCmdView> {
    scene_head(p, opts, cfg) + curve_cmds(samples, cfg) + seq![DrawCmdView::Present]
}

/// The views of a sequence of sample points.
pub open spec fn point_views(s: Seq<Complex>) -> Seq<ComplexView> {
    s.map_values(|c: Complex| c@)
}

/// Lay out one frame as drawing commands: clear, optional axes, the four
/// unit landmarks, the two reference markers, the live markers, one circle
/// per curve sample in sample order, and a final present — exactly the
/// sequence `scene_view` states.
pub fn render(params: &Params, samples: &Vec<Complex>, opts: RenderOptions, cfg: &ScreenConfig)
    -> (r: Vec<DrawCmd>)
    requires
        cfg@.wf(),
        params@.wf(),
        forall|i: int| 0 <= i < samples@.len() ==> complex_in_range(#[trigger] samples@[i]@),
    ensures
        r@.len() == scene_view(params@, point_views(samples@), opts, cfg@).len(),
        forall|j: int|
            0 <= j < r@.len() ==> #[trigger] r@[j]@ == scene_view(
                params@,
                point_views(samples@),
                opts,
                cfg@,
            )[j],
{
    let ghost head = scene_head(params@, opts, cfg@);
    let mut cmds: Vec<DrawCmd> = Vec::new();
    cmds.push(DrawCmd::Clear { color: Color::Black });
    if opts.draw_axes {
        let cx: i64 = cfg.center_x_px();
        let cy: i64 = cfg.center_y_px();
        let w: i64 = cfg.width_micro();
        let h: i64 = cfg.height_micro();
        cmds.push(
            DrawCmd::Line {
                a: ScreenPoint { x: 0, y: cy },
                b: ScreenPoint { x: w, y: cy },
                color: Color::White,
            },
        );
        cmds.push(
            DrawCmd::Line {
                a: ScreenPoint { x: cx, y: 0 },
                b: ScreenPoint { x: cx, y: h },
                color: Color::White,
            },
        );
    }
    cmds.push(
        DrawCmd::Circle {
            center: to_screen(Complex::new(ONE, 0), cfg),
            radius: MARKER_RADIUS,
            color: Color::White,
        },
    );
    cmds.push(
        DrawCmd::Circle {
            center: to_screen(Complex::new(0, ONE), cfg),
            radius: MARKER_RADIUS,
            color: Color::White,
        },
    );
    cmds.push(
        DrawCmd::Circle {
            center: to_screen(Complex::new(-ONE, 0), cfg),
            radius: MARKER_RADIUS,
            color: Color::White,
        },
    );
    cmds.push(
        DrawCmd::Circle {
            center: to_screen(Complex::new(0, -ONE), cfg),
            radius: MARKER_RADIUS,
            color: Color::White,
        },
    );
    cmds.push(
        DrawCmd::Circle {
            center: to_screen(Complex::new(0, ONE), cfg),
            radius: REFERENCE_RADIUS,
            color: Color::Green,
        },
    );
    cmds.push(
        DrawCmd::Circle {
            center: to_screen(Complex::new(E_FIXED, 0), cfg),
            radius: REFERENCE_RADIUS,
            color: Color::Red,
        },
    );
    if opts.show_direction {
        cmds.push(
            DrawCmd::Circle {
                center: to_screen(params.direction, cfg),
                radius: MARKER_RADIUS,
                color: Color::Green,
            },
        );
    }
    cmds.push(
        DrawCmd::Circle {
            center: to_screen(params.base, cfg),
            radius: MARKER_RADIUS,
            color: Color::Red,
        },
    );
    assert(cmds@.len() == head.len());
    assert(forall|j: int| 0 <= j < head.len() ==> #[trigger] cmds@[j]@ == head[j]);
    let n: usize = samples.len();
    let mut i: usize = 0;
    while i < n
        invariant
            n == samples@.len(),
            i <= n,
            cfg@.wf(),
            forall|k: int| 0 <= k < samples@.len() ==> complex_in_range(#[trigger] samples@[k]@),
            head == scene_head(params@, opts, cfg@),
            cmds@.len() == head.len() + i as int,
            forall|j: int| 0 <= j < head.len() ==> #[trigger] cmds@[j]@ == head[j],
            forall|j: int|
                0 <= j < i as int ==> #[trigger] cmds@[head.len() + j]@ == circle_at(
                    samples@[j]@,
                    CURVE_RADIUS as int,
                    Color::White,
                    cfg@,
                ),
        decreases n - i,
    {
        let point: Complex = samples[i];
        cmds.push(
            DrawCmd::Circle { center: to_screen(point, cfg), radius: CURVE_RADIUS, color: Color::White },
        );
        i = i + 1;
    }
    let ghost before_present = cmds@;
    cmds.push(DrawCmd::Present);
    proof {
        let full = scene_view(params@, point_views(samples@), opts, cfg@);
        assert(point_views(samples@).len() == samples@.len());
        assert(full.len() == head.len() + samples@.len() + 1);
        assert(cmds@.len() == full.len());
        assert forall|j: int| 0 <= j < cmds@.len() implies #[trigger] cmds@[j]@ == full[j] by {
            if j < head.len() {
                assert(full[j] == head[j]);
                assert(cmds@[j] == before_present[j]);
                assert(before_present[j]@ == head[j]);
            } else if j < head.len() + samples@.len() {
                let k = j - head.len();
                assert(point_views(samples@)[k] == samples@[k]@);
                assert(full[j] == curve_cmds(point_views(samples@), cfg@)[k]);
                assert(full[j] == circle_at(samples@[k]@, CURVE_RADIUS as int, Color::White, cfg@));
                assert(cmds@[j] == before_present[j]);
                assert(before_present[head.len() + k]@ == circle_at(
                    samples@[k]@,
                    CURVE_RADIUS as int,
                    Color::White,
                    cfg@,
                ));
            } else {
                assert(full[j] == DrawCmdView::Present);
            }
        }
    }
    cmds
}

} // verus!

//! The affine map from the complex plane to pixel coordinates: real part
//! scaled rightward from the window center, imaginary part scaled upward,
//! which in pixel space (origin at the top left) means downward-negated.
//! Screen coordinates are fixed-point micro-pixels, so the map is exact
//! integer arithmetic and deterministic.
use vstd::prelude::*;

use crate::complex::Complex;
use crate::complex::ComplexView;
use crate::complex::zero_view;
use crate::fixed::fx_div;
use crate::fixed::fx_div_spec;
use crate::fixed::fx_in_range;
use crate::fixed::fx_mul;
use crate::fixed::fx_mul_spec;
use crate::fixed::mag;
use crate::fixed::ONE;

verus! {

/// Largest window extent admitted, in pixels.
pub const WINDOW_LIMIT: u32 = 1_000_000;

/// Largest pixel-per-unit scale admitted, in micro-pixels per unit.
pub const SCALE_LIMIT: i64 = 1_000_000_000_000;

/// The default window width in pixels.
pub const DEFAULT_WIDTH: u32 = 800;

/// The default window height in pixels.
pub const DEFAULT_HEIGHT: u32 = 600;

/// The default scale: one hundred pixels per unit, in micro-pixels.
pub const DEFAULT_SCALE: i64 = 100_000_000;

/// The constants of the screen transform, fixed for the process lifetime.
#[derive(Clone, Copy, PartialEq, Eq, Structural, Debug)]
pub struct ScreenConfig {
    /// Window width in pixels.
    pub width_px: u32,
    /// Window height in pixels.
    pub height_px: u32,
    /// Micro-pixels per complex-plane unit.
    pub scale: i64,
}

/// The mathematical reading of a `ScreenConfig`.
pub struct ScreenConfigView {
    pub width_px: int,
    pub height_px: int,
    pub scale: int,
}

impl View for ScreenConfig {
    type V = ScreenConfigView;

    open spec fn view(&self) -> ScreenConfigView {
        ScreenConfigView {
            width_px: self.width_px as int,
            height_px: self.height_px as int,
            scale: self.scale as int,
        }
    }
}

impl ScreenConfigView {
    /// Well-formedness: a nonempty window of bounded extent and a positive,
    /// bounded scale.
    pub open spec fn wf(self) -> bool {
        &&& 1 <= self.width_px <= WINDOW_LIMIT as int
        &&& 1 <= self.height_px <= WINDOW_LIMIT as int
        &&& 1 <= self.scale <= SCALE_LIMIT as int
    }

    /// Half the window width in micro-pixels: the x coordinate of the center.
    pub open spec fn center_x(self) -> int {
        self.width_px * (ONE as int) / 2
    }

    /// Half the window height in micro-pixels: the y coordinate of the center.
    pub open spec fn center_y(self) -> int {
        self.height_px * (ONE as int) / 2
    }
}

impl ScreenConfig {
    /// The reference transform: an 800 by 600 window at one hundred pixels
    /// per unit.
    pub fn defaults() -> (r: ScreenConfig)
        ensures
            r@.width_px == DEFAULT_WIDTH as int,
            r@.height_px == DEFAULT_HEIGHT as int,
            r@.scale == DEFAULT_SCALE as int,
            r@.wf(),
    {
        ScreenConfig { width_px: DEFAULT_WIDTH, height_px: DEFAULT_HEIGHT, scale: DEFAULT_SCALE }
    }

    /// The window center's x coordinate in micro-pixels.
    pub fn center_x_px(&self) -> (r: i64)
        requires
            self@.wf(),
        ensures
            r as int == self@.center_x(),
    {
        proof {
            lemma_window_extent_bound(self.width_px as int);
        }
        (((self.width_px as u64) * (ONE as u64)) / 2) as i64
    }

    /// The window center's y coordinate in micro-pixels.
    pub fn center_y_px(&self) -> (r: i64)
        requires
            self@.wf(),
        ensures
            r as int == self@.center_y(),
    {
        proof {
            lemma_window_extent_bound(self.height_px as int);
        }
        (((self.height_px as u64) * (ONE as u64)) / 2) as i64
    }

    /// The full window width in micro-pixels.
    pub fn width_micro(&self) -> (r: i64)
        requires
            self@.wf(),
        ensures
            r as int == self@.width_px * (ONE as int),
    {
        proof {
            lemma_window_extent_bound(self.width_px as int);
        }
        ((self.width_px as u64) * (ONE as u64)) as i64
    }

    /// The full window height in micro-pixels.
    pub fn height_micro(&self) -> (r: i64)
        requires
            self@.wf(),
        ensures
            r as int == self@.height_px * (ONE as int),
    {
        proof {
            lemma_window_extent_bound(self.height_px as int);
        }
        ((self.height_px as u64) * (ONE as u64)) as i64
    }
}

/// A bounded window extent times the fixed-point unit stays well inside the
/// signed 64-bit range.
proof fn lemma_window_extent_bound(px: int)
    requires
        0 <= px <= WINDOW_LIMIT as int,
    ensures
        0 <= px * (ONE as int) <= (WINDOW_LIMIT as int) * (ONE as int),
{
    assert(0 <= px * (ONE as int) <= (WINDOW_LIMIT as int) * (ONE as int)) by (nonlinear_arith)
        requires
            0 <= px <= WINDOW_LIMIT as int,
    ;
}

/// A position in pixel space, in micro-pixels, origin at the top left.
#[derive(Clone, Copy, PartialEq, Eq, Structural, Debug)]
pub struct ScreenPoint {
    pub x: i64,
    pub y: i64,
}

/// The mathematical reading of a `ScreenPoint`.
pub struct ScreenPointView {
    pub x: int,
    pub y: int,
}

impl View for ScreenPoint {
    type V = ScreenPointView;

    open spec fn view(&self) -> ScreenPointView {
        ScreenPointView { x: self.x as int, y: self.y as int }
    }
}

/// The affine screen map: `x = re * scale + width/2`,
/// `y = -im * scale + height/2`, all in micro-pixels.
pub open spec fn to_screen_view(v: ComplexView, cfg: ScreenConfigView) -> ScreenPointView {
    ScreenPointView {
        x: fx_mul_spec(v.re, cfg.scale) + cfg.center_x(),
        y: fx_mul_spec(-v.im, cfg.scale) + cfg.center_y(),
    }
}

/// The reverse map: pixel offsets from the center divided by the scale.
pub open spec fn from_screen_view(p: ScreenPointView, cfg: ScreenConfigView) -> ComplexView {
    ComplexView {
        re: fx_div_spec(p.x - cfg.center_x(), cfg.scale),
        im: -fx_div_spec(p.y - cfg.center_y(), cfg.scale),
    }
}

/// Map a complex value to its screen position.
pub fn to_screen(v: Complex, cfg: &ScreenConfig) -> (r: ScreenPoint)
    requires
        cfg@.wf(),
        fx_in_range(v@.re),
        fx_in_range(v@.im),
    ensures
        r@ == to_screen_view(v@, cfg@),
{
    proof {
        assert((cfg.width_px as int) * (ONE as int) <= (WINDOW_LIMIT as int) * (ONE as int))
            by (nonlinear_arith)
            requires
                1 <= cfg.width_px as int <= WINDOW_LIMIT as int,
        ;
        assert((cfg.height_px as int) * (ONE as int) <= (WINDOW_LIMIT as int) * (ONE as int))
            by (nonlinear_arith)
            requires
                1 <= cfg.height_px as int <= WINDOW_LIMIT as int,
        ;
    }
    let half_w: i64 = (((cfg.width_px as u64) * (ONE as u64)) / 2) as i64;
    let half_h: i64 = (((cfg.height_px as u64) * (ONE as u64)) / 2) as i64;
    let sx: i64 = fx_mul(v.re, cfg.scale);
    let sy: i64 = fx_mul(-v.im, cfg.scale);
    ScreenPoint { x: sx + half_w, y: sy + half_h }
}

/// Map a screen position back to the complex value whose screen position it
/// is, up to the fixed-point rounding of the forward map.
pub fn from_screen(p: ScreenPoint, cfg: &ScreenConfig) -> (r: Complex)
    requires
        cfg@.wf(),
        -9_000_000_000_000_000_000 <= p@.x - cfg@.center_x(),
        p@.x - cfg@.center_x() <= 9_000_000_000_000_000_000,
        -9_000_000_000_000_000_000 <= p@.y - cfg@.center_y(),
        p@.y - cfg@.center_y() <= 9_000_000_000_000_000_000,
        fx_in_range(fx_div_spec(p@.x - cfg@.center_x(), cfg@.scale)),
        fx_in_range(fx_div_spec(p@.y - cfg@.center_y(), cfg@.scale)),
    ensures
        r@ == from_screen_view(p@, cfg@),
{
    proof {
        assert((cfg.width_px as int) * (ONE as int) <= (WINDOW_LIMIT as int) * (ONE as int))
            by (nonlinear_arith)
            requires
                1 <= cfg.width_px as int <= WINDOW_LIMIT as int,
        ;
        assert((cfg.height_px as int) * (ONE as int) <= (WINDOW_LIMIT as int) * (ONE as int))
            by (nonlinear_arith)
            requires
                1 <= cfg.height_px as int <= WINDOW_LIMIT as int,
        ;
    }
    let half_w: i64 = (((cfg.width_px as u64) * (ONE as u64)) / 2) as i64;
    let half_h: i64 = (((cfg.height_px as u64) * (ONE as u64)) / 2) as i64;
    let dx: i64 = p.x - half_w;
    let dy: i64 = p.y - half_h;
    let re: i64 = fx_div(dx, cfg.scale);
    let im_neg: i64 = fx_div(dy, cfg.scale);
    Complex { re, im: -im_neg }
}

/// The origin maps exactly to the window center: the screen map sends
/// `0 + 0i` to `(width/2, height/2)` with no rounding at all.
pub proof fn lemma_to_screen_center(cfg: ScreenConfigView)
    requires
        cfg.wf(),
    ensures
        to_screen_view(zero_view(), cfg) == (ScreenPointView {
            x: cfg.center_x(),
            y: cfg.center_y(),
        }),
{
    assert(0 * cfg.scale == 0) by (nonlinear_arith);
}

/// A multiple of `d` divided by `d` leaves the multiplier, for truncating
/// division of a nonnegative multiple.
proof fn lemma_div_of_multiple(m: int, d: int)
    requires
        d >= 1,
        m >= 0,
    ensures
        (m * d) / d == m,
{
    assert((m * d) / d == m) by (nonlinear_arith)
        requires
            d >= 1,
            m >= 0,
    ;
}

/// Scaling by a whole-pixel-per-unit factor is exact: when the scale is `k`
/// whole micro-pixel units, the fixed-point product is exactly `v * k`.
proof fn lemma_fx_mul_by_whole(v: int, k: int)
    requires
        k >= 1,
    ensures
        fx_mul_spec(v, k * (ONE as int)) == v * k,
{
    let s = k * (ONE as int);
    let p = v * s;
    assert(p == (v * k) * (ONE as int)) by (nonlinear_arith)
        requires
            s == k * (ONE as int),
            p == v * s,
    ;
    if p >= 0 {
        assert(v * k >= 0) by (nonlinear_arith)
            requires
                (v * k) * (ONE as int) >= 0,
        ;
        lemma_div_of_multiple(v * k, ONE as int);
    } else {
        assert(v * k < 0) by (nonlinear_arith)
            requires
                (v * k) * (ONE as int) < 0,
        ;
        assert(-p == (-(v * k)) * (ONE as int)) by (nonlinear_arith)
            requires
                p == (v * k) * (ONE as int),
        ;
        lemma_div_of_multiple(-(v * k), ONE as int);
        assert(fx_mul_spec(v, s) == -((-p) / (ONE as int)));
        assert((-p) / (ONE as int) == -(v * k));
    }
}

/// Dividing `v * k` by the scale `k * ONE` in fixed point gives back `v`
/// exactly.
proof fn lemma_fx_div_undoes_whole(v: int, k: int)
    requires
        k >= 1,
    ensures
        fx_div_spec(v * k, k * (ONE as int)) == v,
{
    let s = k * (ONE as int);
    let n = (v * k) * (ONE as int);
    assert(s >= 1) by (nonlinear_arith)
        requires
            k >= 1,
            s == k * (ONE as int),
    ;
    assert(n == v * s) by (nonlinear_arith)
        requires
            n == (v * k) * (ONE as int),
            s == k * (ONE as int),
    ;
    assert(mag(n) == mag(v) * s) by (nonlinear_arith)
        requires
            n == v * s,
            s >= 1,
    ;
    assert(mag(s) == s);
    assert(mag(n) / mag(s) == mag(v)) by {
        lemma_div_of_multiple(mag(v), s);
    }
    if v >= 0 {
        assert(n >= 0) by (nonlinear_arith)
            requires
                n == v * s,
                s >= 1,
                v >= 0,
        ;
        assert(fx_div_spec(v * k, s) == mag(v));
    } else {
        assert(n < 0) by (nonlinear_arith)
            requires
                n == v * s,
                s >= 1,
                v < 0,
        ;
        assert(fx_div_spec(v * k, s) == -mag(v));
    }
}

/// The screen map is invertible on the nose whenever the scale is a whole
/// number of pixels per unit: mapping to the screen and back returns exactly
/// the complex value that went in.
pub proof fn lemma_screen_round_trip(v: ComplexView, cfg: ScreenConfigView)
    requires
        cfg.wf(),
        cfg.scale % (ONE as int) == 0,
    ensures
        from_screen_view(to_screen_view(v, cfg), cfg) == v,
{
    let k = cfg.scale / (ONE as int);
    assert(cfg.scale == k * (ONE as int));
    assert(k >= 1) by (nonlinear_arith)
        requires
            cfg.scale == k * (ONE as int),
            cfg.scale >= 1,
    ;
    let p = to_screen_view(v, cfg);
    lemma_fx_mul_by_whole(v.re, k);
    lemma_fx_mul_by_whole(-v.im, k);
    assert(p.x - cfg.center_x() == v.re * k);
    assert(p.y - cfg.center_y() == (-v.im) * k);
    lemma_fx_div_undoes_whole(v.re, k);
    lemma_fx_div_undoes_whole(-v.im, k);
    assert(from_screen_view(p, cfg).re == v.re);
    assert(from_screen_view(p, cfg).im == -(-v.im));
}

} // verus!

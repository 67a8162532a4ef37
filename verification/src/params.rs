//! The interactive parameter store: the adjustable base and direction of the
//! curve, the sample count, and the parameter interval. Each frame the store
//! applies one fixed-point step per held directional flag; nothing else ever
//! changes it.
use vstd::prelude::*;

use crate::complex::Complex;
use crate::complex::ComplexView;
use crate::fixed::fx_in_range;
use crate::fixed::ONE;
use crate::input::combine_snapshots;
use crate::input::idle_snapshot;
use crate::input::snapshots_disjoint;
use crate::input::InputSnapshot;

verus! {

/// The base of the natural logarithm in micro-units, to fixed-point precision.
pub const E_FIXED: i64 = 2_718_282;

/// A full turn (two pi) in micro-units, to fixed-point precision.
pub const TAU_FIXED: i64 = 6_283_185;

/// The per-frame adjustment step in micro-units (0.025 units).
pub const DEFAULT_STEP: i64 = 25_000;

/// The default number of curve samples per frame.
pub const DEFAULT_SAMPLE_COUNT: u32 = 100;

/// The adjustable state of the visualizer.
pub struct Params {
    /// The complex base that is raised to the swept power.
    pub base: Complex,
    /// The complex direction the exponent sweeps along.
    pub direction: Complex,
    /// How many evenly spaced samples are drawn per frame.
    pub sample_count: u32,
    /// Lower end of the parameter interval, in micro-units.
    pub interval_start: i64,
    /// Upper end of the parameter interval, in micro-units; never reached by
    /// the half-open sampling.
    pub interval_end: i64,
}

/// The mathematical reading of `Params`.
pub struct ParamsView {
    pub base: ComplexView,
    pub direction: ComplexView,
    pub sample_count: int,
    pub interval_start: int,
    pub interval_end: int,
}

impl View for Params {
    type V = ParamsView;

    open spec fn view(&self) -> ParamsView {
        ParamsView {
            base: self.base@,
            direction: self.direction@,
            sample_count: self.sample_count as int,
            interval_start: self.interval_start as int,
            interval_end: self.interval_end as int,
        }
    }
}

impl ParamsView {
    /// Well-formedness: at least one sample, an ordered interval, and every
    /// coordinate within the fixed-point operand range.
    pub open spec fn wf(self) -> bool {
        &&& self.sample_count >= 1
        &&& self.interval_start <= self.interval_end
        &&& fx_in_range(self.interval_start)
        &&& fx_in_range(self.interval_end)
        &&& fx_in_range(self.base.re)
        &&& fx_in_range(self.base.im)
        &&& fx_in_range(self.direction.re)
        &&& fx_in_range(self.direction.im)
    }
}

/// Net change of one coordinate from its positive and negative flags: `step`
/// added when the positive flag is held, subtracted when the negative flag is.
pub open spec fn flag_delta(pos: bool, neg: bool, step: int) -> int {
    (if pos {
        step
    } else {
        0
    }) - (if neg {
        step
    } else {
        0
    })
}

/// The parameters after one frame of input: every flagged coordinate moves by
/// one step, all simultaneously; nothing else changes.
pub open spec fn update_view(p: ParamsView, input: InputSnapshot, step: int) -> ParamsView {
    ParamsView {
        base: ComplexView {
            re: p.base.re + flag_delta(input.base_re_pos, input.base_re_neg, step),
            im: p.base.im + flag_delta(input.base_im_pos, input.base_im_neg, step),
        },
        direction: ComplexView {
            re: p.direction.re + flag_delta(input.dir_re_pos, input.dir_re_neg, step),
            im: p.direction.im + flag_delta(input.dir_im_pos, input.dir_im_neg, step),
        },
        ..p
    }
}

/// The parameters after `k` frames that all carry the same input and step.
pub open spec fn iterate_update(p: ParamsView, input: InputSnapshot, step: int, k: nat) -> ParamsView
    decreases k,
{
    if k == 0 {
        p
    } else {
        update_view(iterate_update(p, input, step, (k - 1) as nat), input, step)
    }
}

impl Params {
    /// The canonical defaults: base `(e, 0)`, direction `(0, 1)`, one hundred
    /// samples over `[0, 2*pi)`.
    pub fn defaults() -> (r: Params)
        ensures
            r@.base == (ComplexView { re: E_FIXED as int, im: 0 }),
            r@.direction == (ComplexView { re: 0, im: ONE as int }),
            r@.sample_count == DEFAULT_SAMPLE_COUNT as int,
            r@.interval_start == 0,
            r@.interval_end == TAU_FIXED as int,
            r@.wf(),
    {
        Params {
            base: Complex::new(E_FIXED, 0),
            direction: Complex::new(0, ONE),
            sample_count: DEFAULT_SAMPLE_COUNT,
            interval_start: 0,
            interval_end: TAU_FIXED,
        }
    }

    /// Apply one frame of directional input: each held flag moves its
    /// coordinate by `step` micro-units, positive and negative flags
    /// independently; the sample count and interval never change.
    pub fn update(&mut self, input: &InputSnapshot, step: i64)
        requires
            old(self)@.wf(),
            0 <= step,
            fx_in_range(old(self)@.base.re + step),
            fx_in_range(old(self)@.base.re - step),
            fx_in_range(old(self)@.base.im + step),
            fx_in_range(old(self)@.base.im - step),
            fx_in_range(old(self)@.direction.re + step),
            fx_in_range(old(self)@.direction.re - step),
            fx_in_range(old(self)@.direction.im + step),
            fx_in_range(old(self)@.direction.im - step),
        ensures
            final(self)@ == update_view(old(self)@, *input, step as int),
            final(self)@.wf(),
    {
        if input.base_re_neg {
            self.base.re = self.base.re - step;
        }
        if input.base_re_pos {
            self.base.re = self.base.re + step;
        }
        if input.base_im_pos {
            self.base.im = self.base.im + step;
        }
        if input.base_im_neg {
            self.base.im = self.base.im - step;
        }
        if input.dir_re_neg {
            self.direction.re = self.direction.re - step;
        }
        if input.dir_re_pos {
            self.direction.re = self.direction.re + step;
        }
        if input.dir_im_pos {
            self.direction.im = self.direction.im + step;
        }
        if input.dir_im_neg {
            self.direction.im = self.direction.im - step;
        }
    }
}

/// With no control held, an update frame is the identity: the parameters come
/// out exactly as they went in.
pub proof fn lemma_update_idle_identity(p: ParamsView, step: int)
    ensures
        update_view(p, idle_snapshot(), step) == p,
{
}

/// Holding the same input for `k` consecutive frames moves every coordinate
/// by exactly `k` times its per-frame net change, and touches nothing else.
pub proof fn lemma_update_accumulates(p: ParamsView, input: InputSnapshot, step: int, k: nat)
    ensures
        iterate_update(p, input, step, k) == (ParamsView {
            base: ComplexView {
                re: p.base.re + k * flag_delta(input.base_re_pos, input.base_re_neg, step),
                im: p.base.im + k * flag_delta(input.base_im_pos, input.base_im_neg, step),
            },
            direction: ComplexView {
                re: p.direction.re + k * flag_delta(input.dir_re_pos, input.dir_re_neg, step),
                im: p.direction.im + k * flag_delta(input.dir_im_pos, input.dir_im_neg, step),
            },
            ..p
        }),
    decreases k,
{
    if k == 0 {
        assert(iterate_update(p, input, step, 0) == p);
    } else {
        lemma_update_accumulates(p, input, step, (k - 1) as nat);
        assert((k - 1) * flag_delta(input.base_re_pos, input.base_re_neg, step) + flag_delta(
            input.base_re_pos,
            input.base_re_neg,
            step,
        ) == k * flag_delta(input.base_re_pos, input.base_re_neg, step)) by (nonlinear_arith);
        assert((k - 1) * flag_delta(input.base_im_pos, input.base_im_neg, step) + flag_delta(
            input.base_im_pos,
            input.base_im_neg,
            step,
        ) == k * flag_delta(input.base_im_pos, input.base_im_neg, step)) by (nonlinear_arith);
        assert((k - 1) * flag_delta(input.dir_re_pos, input.dir_re_neg, step) + flag_delta(
            input.dir_re_pos,
            input.dir_re_neg,
            step,
        ) == k * flag_delta(input.dir_re_pos, input.dir_re_neg, step)) by (nonlinear_arith);
        assert((k - 1) * flag_delta(input.dir_im_pos, input.dir_im_neg, step) + flag_delta(
            input.dir_im_pos,
            input.dir_im_neg,
            step,
        ) == k * flag_delta(input.dir_im_pos, input.dir_im_neg, step)) by (nonlinear_arith);
    }
}

/// Orthogonal adjustments are order-independent: two frames whose held flags
/// do not overlap land on the same parameters in either order, and equal one
/// combined frame holding both sets of flags at once.
pub proof fn lemma_update_order_independent(
    p: ParamsView,
    a: InputSnapshot,
    b: InputSnapshot,
    step: int,
)
    requires
        snapshots_disjoint(a, b),
    ensures
        update_view(update_view(p, a, step), b, step) == update_view(
            p,
            combine_snapshots(a, b),
            step,
        ),
        update_view(update_view(p, a, step), b, step) == update_view(
            update_view(p, b, step),
            a,
            step,
        ),
{
}

} // verus!

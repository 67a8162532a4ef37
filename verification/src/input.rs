//! One frame's worth of directional input: eight held-or-not flags, four for
//! the base value and four for the direction value. A snapshot is captured by
//! the surrounding event loop and handed in as plain booleans, so the update
//! rule is a pure function of it.
use vstd::prelude::*;

verus! {

/// Which directional controls are held during one frame.
#[derive(Clone, Copy, PartialEq, Eq, Structural, Debug)]
pub struct InputSnapshot {
    /// Decrease the real part of the base.
    pub base_re_neg: bool,
    /// Increase the real part of the base.
    pub base_re_pos: bool,
    /// Increase the imaginary part of the base.
    pub base_im_pos: bool,
    /// Decrease the imaginary part of the base.
    pub base_im_neg: bool,
    /// Decrease the real part of the direction.
    pub dir_re_neg: bool,
    /// Increase the real part of the direction.
    pub dir_re_pos: bool,
    /// Increase the imaginary part of the direction.
    pub dir_im_pos: bool,
    /// Decrease the imaginary part of the direction.
    pub dir_im_neg: bool,
}

/// The snapshot with no control held.
pub open spec fn idle_snapshot() -> InputSnapshot {
    InputSnapshot {
        base_re_neg: false,
        base_re_pos: false,
        base_im_pos: false,
        base_im_neg: false,
        dir_re_neg: false,
        dir_re_pos: false,
        dir_im_pos: false,
        dir_im_neg: false,
    }
}

/// Whether no flag is held in both snapshots at once.
pub open spec fn snapshots_disjoint(a: InputSnapshot, b: InputSnapshot) -> bool {
    !(a.base_re_neg && b.base_re_neg) && !(a.base_re_pos && b.base_re_pos) && !(a.base_im_pos
        && b.base_im_pos) && !(a.base_im_neg && b.base_im_neg) && !(a.dir_re_neg && b.dir_re_neg)
        && !(a.dir_re_pos && b.dir_re_pos) && !(a.dir_im_pos && b.dir_im_pos) && !(a.dir_im_neg
        && b.dir_im_neg)
}

/// The snapshot holding every flag held in either of two snapshots.
pub open spec fn combine_snapshots(a: InputSnapshot, b: InputSnapshot) -> InputSnapshot {
    InputSnapshot {
        base_re_neg: a.base_re_neg || b.base_re_neg,
        base_re_pos: a.base_re_pos || b.base_re_pos,
        base_im_pos: a.base_im_pos || b.base_im_pos,
        base_im_neg: a.base_im_neg || b.base_im_neg,
        dir_re_neg: a.dir_re_neg || b.dir_re_neg,
        dir_re_pos: a.dir_re_pos || b.dir_re_pos,
        dir_im_pos: a.dir_im_pos || b.dir_im_pos,
        dir_im_neg: a.dir_im_neg || b.dir_im_neg,
    }
}

impl InputSnapshot {
    /// A snapshot with no control held.
    pub fn none() -> (r: InputSnapshot)
        ensures
            r == idle_snapshot(),
    {
        InputSnapshot {
            base_re_neg: false,
            base_re_pos: false,
            base_im_pos: false,
            base_im_neg: false,
            dir_re_neg: false,
            dir_re_pos: false,
            dir_im_pos: false,
            dir_im_neg: false,
        }
    }
}

} // verus!

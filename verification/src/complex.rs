//! Complex values over fixed-point components, and the arithmetic the curve
//! needs: addition and scaling by a fixed-point real factor. The
//! transcendental complex power is evaluated outside the library; this module
//! fixes the exact meaning of every operation that feeds it.
use vstd::prelude::*;

use crate::fixed::fx_in_range;
use crate::fixed::fx_mul;
use crate::fixed::fx_mul_spec;

verus! {

/// A complex number with fixed-point real and imaginary components.
#[derive(Clone, Copy, PartialEq, Eq, Structural, Debug)]
pub struct Complex {
    pub re: i64,
    pub im: i64,
}

/// The mathematical reading of a `Complex`: unbounded integer components in
/// micro-units.
pub struct ComplexView {
    pub re: int,
    pub im: int,
}

impl View for Complex {
    type V = ComplexView;

    open spec fn view(&self) -> ComplexView {
        ComplexView { re: self.re as int, im: self.im as int }
    }
}

/// Zero, as a mathematical complex value.
pub open spec fn zero_view() -> ComplexView {
    ComplexView { re: 0, im: 0 }
}

/// Componentwise sum of two complex values.
pub open spec fn plus_view(a: ComplexView, b: ComplexView) -> ComplexView {
    ComplexView { re: a.re + b.re, im: a.im + b.im }
}

/// A complex value scaled by a fixed-point real factor, each component a
/// fixed-point product rounded toward zero.
pub open spec fn scale_view(a: ComplexView, factor: int) -> ComplexView {
    ComplexView { re: fx_mul_spec(a.re, factor), im: fx_mul_spec(a.im, factor) }
}

/// Whether both components lie within the fixed-point operand range.
pub open spec fn complex_in_range(a: ComplexView) -> bool {
    fx_in_range(a.re) && fx_in_range(a.im)
}

impl Complex {
    /// The complex value `re + im * i` in micro-units.
    pub fn new(re: i64, im: i64) -> (r: Complex)
        ensures
            r@ == (ComplexView { re: re as int, im: im as int }),
    {
        Complex { re, im }
    }

    /// The complex zero.
    pub fn zero() -> (r: Complex)
        ensures
            r@ == zero_view(),
    {
        Complex { re: 0, im: 0 }
    }

    /// Componentwise addition.
    pub fn plus(self, other: Complex) -> (r: Complex)
        requires
            fx_in_range(self@.re + other@.re),
            fx_in_range(self@.im + other@.im),
        ensures
            r@ == plus_view(self@, other@),
    {
        Complex { re: self.re + other.re, im: self.im + other.im }
    }

    /// Scaling by a fixed-point real factor.
    pub fn scale(self, factor: i64) -> (r: Complex)
        requires
            complex_in_range(self@),
            fx_in_range(factor as int),
        ensures
            r@ == scale_view(self@, factor as int),
    {
        Complex { re: fx_mul(self.re, factor), im: fx_mul(self.im, factor) }
    }
}

} // verus!

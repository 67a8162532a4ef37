//! The curve sampler's exact half: the exponents to evaluate. One frame draws
//! `base ^ (direction * t_i)` for `i` in `0..sample_count`, with `t_i` spaced
//! evenly across the half-open interval; this module computes every
//! `direction * t_i` exactly in fixed point. The transcendental power itself
//! is evaluated outside the library on these exponents, in index order.
use vstd::prelude::*;

use crate::complex::scale_view;
use crate::complex::zero_view;
use crate::complex::Complex;
use crate::complex::ComplexView;
use crate::fixed::fx_in_range;
use crate::fixed::fx_mul_spec;

verus! {

/// The parameter value at sample index `i` of `n` across `[start, end)`:
/// `start + (end - start) * i / n`, rounded toward zero (the numerator is
/// never negative for an ordered interval).
pub open spec fn t_at(start: int, end: int, i: int, n: int) -> int
    recommends
        n >= 1,
        start <= end,
        0 <= i,
{
    start + ((end - start) * i) / n
}

/// The exponent evaluated at sample index `i`: the direction scaled by the
/// fixed-point parameter value there.
pub open spec fn exponent_at(direction: ComplexView, start: int, end: int, i: int, n: int)
    -> ComplexView {
    scale_view(direction, t_at(start, end, i, n))
}

/// Every sample parameter of an ordered interval stays inside it.
pub proof fn lemma_t_at_in_interval(start: int, end: int, i: int, n: int)
    requires
        n >= 1,
        start <= end,
        0 <= i < n,
    ensures
        start <= t_at(start, end, i, n) <= end,
{
    let span = end - start;
    assert(0 <= span * i) by (nonlinear_arith)
        requires
            span >= 0,
            i >= 0,
    ;
    assert(span * i <= span * n) by (nonlinear_arith)
        requires
            span >= 0,
            i <= n,
    ;
    assert(0 <= (span * i) / n) by (nonlinear_arith)
        requires
            span * i >= 0,
            n >= 1,
    ;
    assert((span * i) / n <= span) by (nonlinear_arith)
        requires
            span * i <= span * n,
            n >= 1,
            span >= 0,
    ;
}

/// Sample order is parameter order: a later index never has a smaller
/// parameter value, so the exponents of one frame follow the interval in
/// increasing order of `t`.
pub proof fn lemma_t_at_monotone(start: int, end: int, i: int, j: int, n: int)
    requires
        n >= 1,
        start <= end,
        0 <= i <= j,
    ensures
        t_at(start, end, i, n) <= t_at(start, end, j, n),
{
    let span = end - start;
    assert(span * i <= span * j) by (nonlinear_arith)
        requires
            span >= 0,
            0 <= i <= j,
    ;
    vstd::arithmetic::div_mod::lemma_div_is_ordered(span * i, span * j, n);
}

/// The first sample parameter is exactly the interval's lower end.
pub proof fn lemma_t_at_first(start: int, end: int, n: int)
    requires
        n >= 1,
    ensures
        t_at(start, end, 0, n) == start,
{
    assert((end - start) * 0 == 0) by (nonlinear_arith);
    assert(0int / n == 0);
}

/// With the canonical interval start of zero, the first exponent is exactly
/// zero, whatever the direction: the curve's first sample raises the base to
/// the zero power.
pub proof fn lemma_first_exponent_zero(direction: ComplexView, end: int, n: int)
    requires
        n >= 1,
        end >= 0,
    ensures
        exponent_at(direction, 0, end, 0, n) == zero_view(),
{
    lemma_t_at_first(0, end, n);
    assert(fx_mul_spec(direction.re, 0) == 0) by {
        assert(direction.re * 0 == 0) by (nonlinear_arith);
    }
    assert(fx_mul_spec(direction.im, 0) == 0) by {
        assert(direction.im * 0 == 0) by (nonlinear_arith);
    }
}

/// The fixed-point parameter value at sample index `i`.
pub fn t_for_index(start: i64, end: i64, i: u32, n: u32) -> (r: i64)
    requires
        n >= 1,
        i < n,
        start <= end,
        fx_in_range(start as int),
        fx_in_range(end as int),
    ensures
        r as int == t_at(start as int, end as int, i as int, n as int),
        start as int <= r as int <= end as int,
{
    proof {
        lemma_t_at_in_interval(start as int, end as int, i as int, n as int);
    }
    let span: u64 = (end - start) as u64;
    proof {
        assert((span as int) * (i as int) <= 6_000_000_000_000 * 0x1_0000_0000) by (nonlinear_arith)
            requires
                0 <= span as int <= 6_000_000_000_000,
                0 <= (i as int) && (i as int) < 0x1_0000_0000,
        ;
    }
    let product: u128 = (span as u128) * (i as u128);
    proof {
        assert(product as int == (end - start) * (i as int)) by (nonlinear_arith)
            requires
                product as int == (span as int) * (i as int),
                span as int == end - start,
        ;
    }
    let quotient: u128 = product / (n as u128);
    proof {
        assert(quotient as int == ((end - start) * (i as int)) / (n as int));
        assert(quotient as int <= end - start) by {
            lemma_t_at_in_interval(start as int, end as int, i as int, n as int);
        }
    }
    start + (quotient as i64)
}

/// The exponents of one frame, in increasing order of `t`: entry `i` holds
/// `direction * t_i` exactly as `exponent_at` states it.
pub fn exponents(direction: Complex, sample_count: u32, interval_start: i64, interval_end: i64)
    -> (r: Vec<Complex>)
    requires
        sample_count >= 1,
        interval_start <= interval_end,
        fx_in_range(interval_start as int),
        fx_in_range(interval_end as int),
        fx_in_range(direction@.re),
        fx_in_range(direction@.im),
    ensures
        r@.len() == sample_count as int,
        forall|i: int|
            0 <= i < sample_count as int ==> #[trigger] r@[i]@ == exponent_at(
                direction@,
                interval_start as int,
                interval_end as int,
                i,
                sample_count as int,
            ),
{
    let mut result: Vec<Complex> = Vec::new();
    let mut i: u32 = 0;
    while i < sample_count
        invariant
            i <= sample_count,
            sample_count >= 1,
            interval_start <= interval_end,
            fx_in_range(interval_start as int),
            fx_in_range(interval_end as int),
            fx_in_range(direction@.re),
            fx_in_range(direction@.im),
            result@.len() == i as int,
            forall|j: int|
                0 <= j < i as int ==> #[trigger] result@[j]@ == exponent_at(
                    direction@,
                    interval_start as int,
                    interval_end as int,
                    j,
                    sample_count as int,
                ),
        decreases sample_count - i,
    {
        let t: i64 = t_for_index(interval_start, interval_end, i, sample_count);
        let point: Complex = direction.scale(t);
        result.push(point);
        i = i + 1;
    }
    result
}

} // verus!

//! Fixed-point arithmetic with six decimal places: a value `v` stands for the
//! real number `v / 1_000_000`. Products and quotients round toward zero,
//! matching hardware truncating division on the magnitudes.
use vstd::prelude::*;

verus! {

/// The fixed-point unit: one whole unit is this many micro-units.
pub const ONE: i64 = 1_000_000;

/// Largest magnitude admitted for a fixed-point operand (three million whole
/// units), chosen so that any product of two operands divided by `ONE` still
/// fits in an `i64`.
pub const FX_LIMIT: i64 = 3_000_000_000_000;

/// Magnitude bound that every `fx_mul` result obeys:
/// `FX_LIMIT * FX_LIMIT / ONE`.
pub const FX_PRODUCT_LIMIT: i64 = 9_000_000_000_000_000_000;

/// Magnitude of an integer.
pub open spec fn mag(a: int) -> int {
    if a >= 0 {
        a
    } else {
        -a
    }
}

/// Whether a value is within the admitted fixed-point operand range.
pub open spec fn fx_in_range(a: int) -> bool {
    -FX_LIMIT <= a <= FX_LIMIT
}

/// The fixed-point product: `a * b / ONE`, rounded toward zero.
pub open spec fn fx_mul_spec(a: int, b: int) -> int {
    let p = a * b;
    if p >= 0 {
        p / (ONE as int)
    } else {
        -((-p) / (ONE as int))
    }
}

/// The fixed-point quotient: `a * ONE / b`, rounded toward zero.
pub open spec fn fx_div_spec(a: int, b: int) -> int
    recommends
        b != 0,
{
    let n = a * (ONE as int);
    let q = mag(n) / mag(b);
    if (n >= 0) == (b >= 0) {
        q
    } else {
        -q
    }
}

/// Truncating division of magnitudes agrees with the sign-split form used in
/// `fx_mul_spec`: both describe `p / d` rounded toward zero.
proof fn lemma_trunc_div_by_mag(p: int, d: int)
    requires
        d > 0,
    ensures
        (if p >= 0 {
            p / d
        } else {
            -((-p) / d)
        }) == (if p >= 0 {
            mag(p) / d
        } else {
            -(mag(p) / d)
        }),
{
}

/// The magnitude of a product is the product of the magnitudes.
proof fn lemma_mag_mul(a: int, b: int)
    ensures
        mag(a * b) == mag(a) * mag(b),
{
    assert(mag(a * b) == mag(a) * mag(b)) by (nonlinear_arith);
}

/// Fixed-point multiplication. Rounds toward zero.
pub fn fx_mul(a: i64, b: i64) -> (r: i64)
    requires
        fx_in_range(a as int),
        fx_in_range(b as int),
    ensures
        r as int == fx_mul_spec(a as int, b as int),
        -FX_PRODUCT_LIMIT <= r as int <= FX_PRODUCT_LIMIT,
{
    let negative: bool = (a < 0) != (b < 0);
    let ma: u64 = if a < 0 {
        (-a) as u64
    } else {
        a as u64
    };
    let mb: u64 = if b < 0 {
        (-b) as u64
    } else {
        b as u64
    };
    proof {
        assert(ma as int == mag(a as int));
        assert(mb as int == mag(b as int));
        assert((ma as int) * (mb as int) <= (FX_LIMIT as int) * (FX_LIMIT as int)) by (nonlinear_arith)
            requires
                0 <= ma as int <= FX_LIMIT as int,
                0 <= mb as int <= FX_LIMIT as int,
        ;
    }
    let p: u128 = (ma as u128) * (mb as u128);
    proof {
        assert(p as int == mag(a as int) * mag(b as int)) by (nonlinear_arith)
            requires
                p as int == (ma as int) * (mb as int),
                ma as int == mag(a as int),
                mb as int == mag(b as int),
        ;
        lemma_mag_mul(a as int, b as int);
    }
    let q: u128 = p / (ONE as u128);
    proof {
        assert(q as int <= FX_PRODUCT_LIMIT as int) by (nonlinear_arith)
            requires
                q as int == (p as int) / (ONE as int),
                0 <= p as int <= (FX_LIMIT as int) * (FX_LIMIT as int),
        ;
    }
    let qi: i64 = q as i64;
    proof {
        let pp = (a as int) * (b as int);
        assert(mag(pp) == p as int);
        assert(q as int == mag(pp) / (ONE as int));
        lemma_trunc_div_by_mag(pp, ONE as int);
        if negative {
            assert(pp <= 0) by (nonlinear_arith)
                requires
                    pp == (a as int) * (b as int),
                    (a < 0) != (b < 0),
            ;
        } else {
            assert(pp >= 0) by (nonlinear_arith)
                requires
                    pp == (a as int) * (b as int),
                    !((a < 0) != (b < 0)),
            ;
        }
    }
    if negative {
        -qi
    } else {
        qi
    }
}

/// Fixed-point division. Rounds toward zero. The caller must show that the
/// quotient lies within the fixed-point operand range.
pub fn fx_div(a: i64, b: i64) -> (r: i64)
    requires
        b != 0,
        fx_in_range(fx_div_spec(a as int, b as int)),
    ensures
        r as int == fx_div_spec(a as int, b as int),
{
    let negative: bool = (a < 0) != (b < 0);
    let ma: u128 = if a < 0 {
        if a == i64::MIN {
            (i64::MAX as u128) + 1
        } else {
            (-a) as u128
        }
    } else {
        a as u128
    };
    let mb: u128 = if b < 0 {
        if b == i64::MIN {
            (i64::MAX as u128) + 1
        } else {
            (-b) as u128
        }
    } else {
        b as u128
    };
    proof {
        assert(ma as int <= 0x8000000000000000);
        assert((ma as int) * (ONE as int) <= 0x8000000000000000 * (ONE as int)) by (nonlinear_arith)
            requires
                0 <= ma as int <= 0x8000000000000000,
        ;
    }
    let n: u128 = ma * (ONE as u128);
    let q: u128 = n / mb;
    proof {
        assert(ma as int == mag(a as int));
        assert(mb as int == mag(b as int));
        assert(n as int == mag(a as int) * (ONE as int)) by (nonlinear_arith)
            requires
                n as int == (ma as int) * (ONE as int),
                ma as int == mag(a as int),
        ;
        lemma_mag_mul(a as int, ONE as int);
        assert(mag((a as int) * (ONE as int)) == n as int);
        let nn = (a as int) * (ONE as int);
        assert(q as int == mag(nn) / mag(b as int));
        if a >= 0 {
            assert(nn >= 0) by (nonlinear_arith)
                requires
                    nn == (a as int) * (ONE as int),
                    a >= 0,
            ;
        } else {
            assert(nn < 0) by (nonlinear_arith)
                requires
                    nn == (a as int) * (ONE as int),
                    a < 0,
            ;
        }
        assert((nn >= 0) == (a >= 0));
        assert((a >= 0) == !(a < 0) && (b >= 0) == !(b < 0));
        if negative {
            assert(fx_div_spec(a as int, b as int) == -(q as int));
        } else {
            assert(fx_div_spec(a as int, b as int) == q as int);
        }
    }
    if negative {
        let qi: i64 = q as i64;
        -qi
    } else {
        let qi: i64 = q as i64;
        qi
    }
}

} // verus!

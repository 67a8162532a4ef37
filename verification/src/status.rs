//! The diagnostic status line: a human-readable report of the current base
//! and direction, with each fixed-point coordinate printed in decimal with
//! its six fractional digits. The text is specified character by character,
//! so the report is exactly the stored parameters, not an approximation.
use vstd::prelude::*;

use crate::fixed::mag;
use crate::fixed::ONE;
use crate::params::Params;
use crate::params::ParamsView;

verus! {

/// The decimal digit character for one digit value.
pub open spec fn digit_char(d: int) -> char {
    if d == 0 {
        '0'
    } else if d == 1 {
        '1'
    } else if d == 2 {
        '2'
    } else if d == 3 {
        '3'
    } else if d == 4 {
        '4'
    } else if d == 5 {
        '5'
    } else if d == 6 {
        '6'
    } else if d == 7 {
        '7'
    } else if d == 8 {
        '8'
    } else {
        '9'
    }
}

/// The decimal digits of a natural number, most significant first.
pub open spec fn dec_seq(n: nat) -> Seq<char>
    decreases n,
{
    if n < 10 {
        seq![digit_char(n as int)]
    } else {
        dec_seq(n / 10).push(digit_char((n % 10) as int))
    }
}

/// The six fractional digits of a micro-unit remainder, zero-padded.
pub open spec fn frac_seq(f: int) -> Seq<char> {
    seq![
        digit_char(f / 100_000 % 10),
        digit_char(f / 10_000 % 10),
        digit_char(f / 1_000 % 10),
        digit_char(f / 100 % 10),
        digit_char(f / 10 % 10),
        digit_char(f % 10),
    ]
}

/// A fixed-point value written in decimal: an optional minus sign, the whole
/// units, a point, and exactly six fractional digits.
pub open spec fn fixed_dec(v: int) -> Seq<char> {
    (if v < 0 {
        "-"@
    } else {
        Seq::<char>::empty()
    }) + dec_seq((mag(v) / (ONE as int)) as nat) + "."@ + frac_seq(mag(v) % (ONE as int))
}

/// One complex value written as `re + imi`.
pub open spec fn complex_dec(re: int, im: int) -> Seq<char> {
    fixed_dec(re) + " + "@ + fixed_dec(im) + "i"@
}

/// The whole status line for one frame.
pub open spec fn status_seq(p: ParamsView) -> Seq<char> {
    "base: "@ + complex_dec(p.base.re, p.base.im) + ", direction: "@ + complex_dec(
        p.direction.re,
        p.direction.im,
    )
}

/// The one-character string for a decimal digit.
fn digit_str(d: u64) -> (r: &'static str)
    requires
        d < 10,
    ensures
        r@ == seq![digit_char(d as int)],
{
    proof {
        reveal_strlit("0");
        reveal_strlit("1");
        reveal_strlit("2");
        reveal_strlit("3");
        reveal_strlit("4");
        reveal_strlit("5");
        reveal_strlit("6");
        reveal_strlit("7");
        reveal_strlit("8");
        reveal_strlit("9");
    }
    if d == 0 {
        proof {
            assert("0"@ =~= seq![digit_char(0)]);
        }
        "0"
    } else if d == 1 {
        proof {
            assert("1"@ =~= seq![digit_char(1)]);
        }
        "1"
    } else if d == 2 {
        proof {
            assert("2"@ =~= seq![digit_char(2)]);
        }
        "2"
    } else if d == 3 {
        proof {
            assert("3"@ =~= seq![digit_char(3)]);
        }
        "3"
    } else if d == 4 {
        proof {
            assert("4"@ =~= seq![digit_char(4)]);
        }
        "4"
    } else if d == 5 {
        proof {
            assert("5"@ =~= seq![digit_char(5)]);
        }
        "5"
    } else if d == 6 {
        proof {
            assert("6"@ =~= seq![digit_char(6)]);
        }
        "6"
    } else if d == 7 {
        proof {
            assert("7"@ =~= seq![digit_char(7)]);
        }
        "7"
    } else if d == 8 {
        proof {
            assert("8"@ =~= seq![digit_char(8)]);
        }
        "8"
    } else {
        proof {
            assert("9"@ =~= seq![digit_char(9)]);
        }
        "9"
    }
}

/// The decimal digits of a natural number, most significant first.
fn dec_string(n: u64) -> (r: String)
    ensures
        r@ == dec_seq(n as nat),
    decreases n,
{
    if n < 10 {
        let mut s = String::new();
        s.append(digit_str(n));
        s
    } else {
        let mut s = dec_string(n / 10);
        s.append(digit_str(n % 10));
        proof {
            assert((n as nat) / 10 == (n / 10) as nat);
            assert((n as nat) % 10 == (n % 10) as nat);
            assert(dec_seq(n as nat) =~= dec_seq((n / 10) as nat).push(
                digit_char((n % 10) as int),
            ));
            assert(dec_seq((n / 10) as nat).push(digit_char((n % 10) as int)) =~= dec_seq(
                (n / 10) as nat,
            ) + seq![digit_char((n % 10) as int)]);
        }
        s
    }
}

/// One fixed-point coordinate written in decimal, exactly as `fixed_dec`
/// states it.
fn fixed_dec_string(v: i64) -> (r: String)
    ensures
        r@ == fixed_dec(v as int),
{
    let m: u64 = if v < 0 {
        if v == i64::MIN {
            (i64::MAX as u64) + 1
        } else {
            (-v) as u64
        }
    } else {
        v as u64
    };
    proof {
        assert(m as int == mag(v as int));
    }
    let whole: u64 = m / 1_000_000;
    let frac: u64 = m % 1_000_000;
    let mut s = String::new();
    if v < 0 {
        s.append("-");
    }
    let digits = dec_string(whole);
    s.append(digits.as_str());
    s.append(".");
    s.append(digit_str(frac / 100_000 % 10));
    s.append(digit_str(frac / 10_000 % 10));
    s.append(digit_str(frac / 1_000 % 10));
    s.append(digit_str(frac / 100 % 10));
    s.append(digit_str(frac / 10 % 10));
    s.append(digit_str(frac % 10));
    proof {
        assert(s@ =~= fixed_dec(v as int));
    }
    s
}

/// The status line reporting the current base and direction, character for
/// character the sequence `status_seq` states.
pub fn status_line(params: &Params) -> (r: String)
    ensures
        r@ == status_seq(params@),
{
    let mut s = String::new();
    s.append("base: ");
    let base_re = fixed_dec_string(params.base.re);
    s.append(base_re.as_str());
    s.append(" + ");
    let base_im = fixed_dec_string(params.base.im);
    s.append(base_im.as_str());
    s.append("i");
    s.append(", direction: ");
    let dir_re = fixed_dec_string(params.direction.re);
    s.append(dir_re.as_str());
    s.append(" + ");
    let dir_im = fixed_dec_string(params.direction.im);
    s.append(dir_im.as_str());
    s.append("i");
    proof {
        assert(s@ =~= status_seq(params@));
    }
    s
}

} // verus!

//! Multiplying and dividing without an overflow in between.
use crate::payout::{fits, truncated};
use vstd::arithmetic::div_mod::lemma_fundamental_div_mod_converse;
use vstd::prelude::*;

verus! {

/// The sum of `q1 * d + r1` and `q2 * d + r2`, again as a quotient and a remainder; `None` where
/// the quotient is no `u128`.
fn add_parts(q1: u128, r1: u128, q2: u128, r2: u128, d: u128) -> (sum: Option<(u128, u128)>)
    requires
        d <= i128::MAX,
        r1 < d,
        r2 < d,
    ensures
        match sum {
            Some((q, r)) => r < d && q * d + r == (q1 * d + r1) + (q2 * d + r2),
            None => (q1 * d + r1) + (q2 * d + r2) >= (u128::MAX + 1) * d,
        },
{
    let r: u128 = r1 + r2;
    let carry: u128 = if r >= d {
        1
    } else {
        0
    };
    let rest: u128 = if r >= d {
        r - d
    } else {
        r
    };
    assert((q1 * d + r1) + (q2 * d + r2) == (q1 + q2 + carry) * d + rest) by (nonlinear_arith)
        requires
            r1 + r2 == carry * d + rest,
    ;
    proof {
        if q1 + q2 + carry > u128::MAX {
            assert((q1 + q2 + carry) * d >= (u128::MAX + 1) * d) by (nonlinear_arith)
                requires
                    q1 + q2 + carry >= u128::MAX + 1,
            ;
        }
    }
    match q1.checked_add(q2) {
        Some(q) => match q.checked_add(carry) {
            Some(q) => Some((q, rest)),
            None => None,
        },
        None => None,
    }
}

/// Quotient and remainder of `a * b` by `d`, whether or not the product is a `u128`; `None` where
/// the quotient is none.
pub fn mul_div(a: u128, b: u128, d: u128) -> (parts: Option<(u128, u128)>)
    requires
        0 < d <= i128::MAX,
    ensures
        match parts {
            Some((q, r)) => r < d && q * d + r == a * b,
            None => a * b >= (u128::MAX + 1) * d,
        },
    decreases b,
{
    if b == 0 {
        assert(a * 0 == 0 && 0 * d + 0 == 0) by (nonlinear_arith);
        return Some((0, 0));
    }
    let half: u128 = b / 2;
    let odd: u128 = b % 2;
    assert(a * b == (a * half) + (a * half) + a * odd && a * half >= 0 && a * odd >= 0)
        by (nonlinear_arith)
        requires
            b == 2 * half + odd,
    ;
    let (q, r) = match mul_div(a, half, d) {
        Some(parts) => parts,
        None => {
            return None;
        },
    };
    let (q2, r2) = match add_parts(q, r, q, r, d) {
        Some(parts) => parts,
        None => {
            return None;
        },
    };
    if odd == 0 {
        assert(a * odd == 0) by (nonlinear_arith)
            requires
                odd == 0,
        ;
        return Some((q2, r2));
    }
    assert(a * odd == a) by (nonlinear_arith)
        requires
            odd == 1,
    ;
    assert((a / d) * d + a % d == a) by (nonlinear_arith)
        requires
            d > 0,
    ;
    add_parts(q2, r2, a / d, a % d, d)
}

/// `x` without its sign.
pub open spec fn magnitude(x: int) -> int {
    if x < 0 {
        -x
    } else {
        x
    }
}

/// `x` without its sign.
fn magnitude_of(x: i128) -> (r: u128)
    ensures
        r == magnitude(x as int),
{
    if x >= 0 {
        x as u128
    } else {
        (-(x + 1)) as u128 + 1
    }
}

/// `a * b / d` rounded towards zero, whether or not the product is an `i128`; `None` where the
/// result is none.
pub fn mul_div_signed(a: i128, b: i128, d: i128) -> (r: Option<i128>)
    requires
        d > 0,
    ensures
        r == (if fits(truncated(a * b, d as int)) {
            Some(truncated(a * b, d as int) as i128)
        } else {
            None
        }),
{
    let negative = (a < 0) != (b < 0);
    let ma: u128 = magnitude_of(a);
    let mb: u128 = magnitude_of(b);
    let ghost product = magnitude(a * b);
    assert(ma * mb == product) by {
        if a < 0 && b < 0 {
            assert((-a) * (-b) == a * b && a * b >= 0) by (nonlinear_arith)
                requires
                    a < 0,
                    b < 0,
            ;
        } else if a < 0 {
            assert((-a) * b == -(a * b) && a * b <= 0) by (nonlinear_arith)
                requires
                    a < 0,
                    b >= 0,
            ;
        } else if b < 0 {
            assert(a * (-b) == -(a * b) && a * b <= 0) by (nonlinear_arith)
                requires
                    a >= 0,
                    b < 0,
            ;
        } else {
            assert(a * b >= 0) by (nonlinear_arith)
                requires
                    a >= 0,
                    b >= 0,
            ;
        }
    }
    assert(a * b != 0 ==> (negative <==> a * b < 0)) by {
        assert(a < 0 && b < 0 ==> a * b > 0) by (nonlinear_arith);
        assert(a < 0 && b >= 0 ==> a * b <= 0) by (nonlinear_arith);
        assert(a >= 0 && b < 0 ==> a * b <= 0) by (nonlinear_arith);
        assert(a >= 0 && b >= 0 ==> a * b >= 0) by (nonlinear_arith);
    }
    let (q, rest) = match mul_div(ma, mb, d as u128) {
        Some(parts) => parts,
        None => {
            proof {
                let quotient = product / (d as int);
                assert(quotient >= u128::MAX) by (nonlinear_arith)
                    requires
                        product >= (u128::MAX + 1) * d,
                        d > 0,
                        quotient == product / (d as int),
                ;
            }
            return None;
        },
    };
    proof {
        lemma_fundamental_div_mod_converse(product, d as int, q as int, rest as int);
        if a * b == 0 {
            assert(q == 0);
        }
    }
    if !negative {
        if q <= i128::MAX as u128 {
            Some(q as i128)
        } else {
            None
        }
    } else if q == 0 {
        Some(0)
    } else if q - 1 <= i128::MAX as u128 {
        Some(-((q - 1) as i128) - 1)
    } else {
        None
    }
}

} // verus!

//! Pitches, intervals and scales of twelve-tone equal-tempered tonal music.
//!
//! Every pitch and interval is a pair of counters: diatonic steps (staff
//! positions) and chromatic steps (half steps). The arithmetic, the text
//! notation and the accidental engine are all stated over that pair.

use vstd::prelude::*;

pub mod harmony;

verus! {

/// Returns `(q, r)` with `q * y + r == x` and `0 <= r < y`: the quotient
/// and the remainder of the division that rounds towards negative infinity,
/// which is how `/` and `%` divide in contracts.
pub fn div_remainder(x: i16, y: i16) -> (res: (i16, i16))
    requires
        y > 0,
    ensures
        res.0 == x as int / y as int,
        res.1 == x as int % y as int,
        res.0 * y + res.1 == x,
        0 <= res.1 < y,
{
    proof {
        lemma_floor_by_truncation(x as int, y as int);
        lemma_floor_quotient_bounds(x as int, y as int);
    }
    let q: i16 = x / y;
    let r: i16 = x % y;
    let res: (i16, i16) = if r >= 0 {
        (q, r)
    } else {
        (q - 1, r + y)
    };
    assert(res.0 * y == y * res.0) by (nonlinear_arith);
    res
}

/// Relates the floor quotient and remainder of a negative dividend to those
/// of its magnitude, which is what truncating division computes.
proof fn lemma_floor_by_truncation(x: int, y: int)
    requires
        y > 0,
    ensures
        x == y * (x / y) + x % y,
        0 <= x % y < y,
        x < 0 && (-x) % y == 0 ==> x / y == -((-x) / y) && x % y == 0,
        x < 0 && (-x) % y != 0 ==> x / y == -((-x) / y) - 1 && x % y == y - (-x) % y,
{
    vstd::arithmetic::div_mod::lemma_fundamental_div_mod(x, y);
    vstd::arithmetic::div_mod::lemma_mod_bound(x, y);
    if x < 0 {
        let a = -x;
        vstd::arithmetic::div_mod::lemma_fundamental_div_mod(a, y);
        vstd::arithmetic::div_mod::lemma_mod_bound(a, y);
        let qa = a / y;
        let ra = a % y;
        if ra == 0 {
            assert(x == (-qa) * y + 0) by (nonlinear_arith)
                requires
                    -x == y * qa + 0,
            ;
            vstd::arithmetic::div_mod::lemma_fundamental_div_mod_converse(x, y, -qa, 0);
        } else {
            assert(x == (-qa - 1) * y + (y - ra)) by (nonlinear_arith)
                requires
                    -x == y * qa + ra,
            ;
            vstd::arithmetic::div_mod::lemma_fundamental_div_mod_converse(x, y, -qa - 1, y - ra);
        }
    }
}

/// The floor quotient by a positive divisor lies between zero and the
/// dividend.
pub proof fn lemma_floor_quotient_bounds(x: int, y: int)
    requires
        y > 0,
    ensures
        x >= 0 ==> 0 <= x / y <= x,
        x < 0 ==> x <= x / y < 0,
{
    vstd::arithmetic::div_mod::lemma_fundamental_div_mod(x, y);
    vstd::arithmetic::div_mod::lemma_mod_bound(x, y);
    let q = x / y;
    let r = x % y;
    assert(x == y * q + r);
    if x >= 0 {
        if q < 0 {
            assert(y * q <= -y) by (nonlinear_arith)
                requires
                    q <= -1,
                    y > 0,
            ;
        }
        if q > x {
            assert(y * q >= q) by (nonlinear_arith)
                requires
                    q >= 0,
                    y >= 1,
            ;
        }
    } else {
        if q >= 0 {
            assert(y * q >= 0) by (nonlinear_arith)
                requires
                    q >= 0,
                    y > 0,
            ;
        }
        if q < x {
            assert(y * (q + 1) <= q + 1) by (nonlinear_arith)
                requires
                    q + 1 <= 0,
                    y >= 1,
            ;
            assert(y * (q + 1) == y * q + y) by (nonlinear_arith);
        }
    }
}

} // verus!

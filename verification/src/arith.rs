//! Facts about truncated and floored integer division.
use crate::integer::{trunc_div, trunc_rem};
use vstd::arithmetic::div_mod::{lemma_fundamental_div_mod, lemma_fundamental_div_mod_converse};
use vstd::prelude::*;

verus! {

/// Division rounding toward negative infinity.
pub open spec fn floor_div(a: int, b: int) -> int {
    if b > 0 {
        a / b
    } else {
        (-a) / (-b)
    }
}

/// The remainder of floored division, with the sign of the divisor.
pub open spec fn floor_mod(a: int, b: int) -> int {
    a - b * floor_div(a, b)
}

/// The absolute value.
pub open spec fn abs(x: int) -> int {
    if x < 0 {
        -x
    } else {
        x
    }
}

/// The remainder of truncated division is smaller than the divisor and
/// has the sign of the dividend.
pub proof fn lemma_trunc_rem_bounds(a: int, b: int)
    requires
        b != 0,
    ensures
        -abs(b) < trunc_rem(a, b) < abs(b),
        a >= 0 ==> trunc_rem(a, b) >= 0,
        a <= 0 ==> trunc_rem(a, b) <= 0,
        trunc_rem(a, b) == a - b * trunc_div(a, b),
{
    let aa = abs(a);
    let bb = abs(b);
    let q = aa / bb;
    let r = aa % bb;
    lemma_fundamental_div_mod(aa, bb);
    assert(0 <= r < bb) by {
        vstd::arithmetic::div_mod::lemma_mod_bound(aa, bb);
    }
    assert(aa == bb * q + r);
    let t = trunc_div(a, b);
    if a >= 0 && b > 0 {
        assert(t == q);
        assert(trunc_rem(a, b) == r);
    } else if a >= 0 && b < 0 {
        assert(t == -q);
        assert(b * t == bb * q) by (nonlinear_arith)
            requires
                b == -bb,
                t == -q,
        ;
        assert(trunc_rem(a, b) == r);
    } else if a < 0 && b > 0 {
        assert(t == -q);
        assert(b * t == -(bb * q)) by (nonlinear_arith)
            requires
                b == bb,
                t == -q,
        ;
        assert(trunc_rem(a, b) == -r);
    } else {
        assert(t == q);
        assert(b * t == -(bb * q)) by (nonlinear_arith)
            requires
                b == -bb,
                t == q,
        ;
        assert(trunc_rem(a, b) == -r);
    }
}

/// Truncated division, less one where the remainder is nonzero and of the
/// other sign than the divisor, is floored division.
pub proof fn lemma_floor_from_trunc(a: int, b: int)
    requires
        b != 0,
    ensures
        ({
            let q = trunc_div(a, b);
            let r = trunc_rem(a, b);
            (if r != 0 && ((r < 0) != (b < 0)) {
                q - 1
            } else {
                q
            }) == floor_div(a, b)
        }),
        b > 0 ==> 0 <= floor_mod(a, b) < b,
        b < 0 ==> b < floor_mod(a, b) <= 0,
{
    lemma_trunc_rem_bounds(a, b);
    let q = trunc_div(a, b);
    let r = trunc_rem(a, b);
    let adj = r != 0 && ((r < 0) != (b < 0));
    let q2 = if adj {
        q - 1
    } else {
        q
    };
    if b > 0 {
        let m = a - b * q2;
        assert(m == if adj {
            r + b
        } else {
            r
        }) by (nonlinear_arith)
            requires
                r == a - b * q,
                q2 == if adj {
                    q - 1
                } else {
                    q
                },
                m == a - b * q2,
        ;
        assert(0 <= m < b);
        assert(a == q2 * b + m) by (nonlinear_arith)
            requires
                m == a - b * q2,
        ;
        lemma_fundamental_div_mod_converse(a, b, q2, m);
    } else {
        let m = -a + b * q2;
        assert(m == if adj {
            -r - b
        } else {
            -r
        }) by (nonlinear_arith)
            requires
                r == a - b * q,
                q2 == if adj {
                    q - 1
                } else {
                    q
                },
                m == -a + b * q2,
        ;
        assert(0 <= m < -b);
        assert(-a == q2 * (-b) + m) by (nonlinear_arith)
            requires
                m == -a + b * q2,
        ;
        lemma_fundamental_div_mod_converse(-a, -b, q2, m);
    }
}

/// Two values in the same window of width `abs(b)` that differ by a
/// multiple of `b` are equal.
proof fn lemma_same_residue(x: int, y: int, b: int, k: int)
    requires
        b != 0,
        x - y == b * k,
        -abs(b) < x - y < abs(b),
    ensures
        x == y,
{
    if k > 0 {
        if b > 0 {
            assert(b * k >= b) by (nonlinear_arith)
                requires
                    b > 0,
                    k > 0,
            ;
        } else {
            assert(b * k <= b) by (nonlinear_arith)
                requires
                    b < 0,
                    k > 0,
            ;
        }
    } else if k < 0 {
        if b > 0 {
            assert(b * k <= -b) by (nonlinear_arith)
                requires
                    b > 0,
                    k < 0,
            ;
        } else {
            assert(b * k >= -b) by (nonlinear_arith)
                requires
                    b < 0,
                    k < 0,
            ;
        }
    } else {
        assert(b * k == 0);
    }
}

/// `((a rem b) + b) rem b`, with truncated remainders, is the floored
/// remainder of `a` by `b`.
pub proof fn lemma_floor_mod_from_trunc(a: int, b: int)
    requires
        b != 0,
    ensures
        trunc_rem(trunc_rem(a, b) + b, b) == floor_mod(a, b),
{
    lemma_floor_from_trunc(a, b);
    lemma_trunc_rem_bounds(a, b);
    let r1 = trunc_rem(a, b);
    let t1 = trunc_div(a, b);
    let s = r1 + b;
    lemma_trunc_rem_bounds(s, b);
    let r2 = trunc_rem(s, b);
    let t2 = trunc_div(s, b);
    let f = floor_div(a, b);
    let fm = floor_mod(a, b);
    let k = 1 - t1 - t2 + f;
    assert(r2 - fm == b * k) by (nonlinear_arith)
        requires
            r1 == a - b * t1,
            s == r1 + b,
            r2 == s - b * t2,
            fm == a - b * f,
            k == 1 - t1 - t2 + f,
    ;
    if b > 0 {
        assert(s > 0);
        assert(0 <= r2 < b);
    } else {
        assert(s < 0);
        assert(b < r2 <= 0);
    }
    lemma_same_residue(r2, fm, b, k);
}

} // verus!

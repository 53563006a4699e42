//! Machine arithmetic on `i32`, described over mathematical integers.

use vstd::prelude::*;

verus! {

/// Whether the mathematical integer `v` can be held in an `i32`.
pub open spec fn fits_i32(v: int) -> bool {
    i32::MIN <= v <= i32::MAX
}

/// The quotient of `a` by `b` rounded toward zero, which is how `/` rounds
/// on signed machine integers. Not meaningful for `b == 0`.
pub open spec fn trunc_div(a: int, b: int) -> int
    recommends
        b != 0,
{
    if a >= 0 {
        a / b
    } else {
        -((-a) / b)
    }
}

/// Whether `a / b` can be computed in `i32`: the divisor is not zero and the
/// quotient is not the one that leaves the range, `i32::MIN / -1`.
pub open spec fn div_defined(a: i32, b: i32) -> bool {
    b != 0 && !(a == i32::MIN && b == -1)
}

/// What is left of `a` after taking out `trunc_div(a, b)` times `b`.
pub open spec fn trunc_rem(a: int, b: int) -> int
    recommends
        b != 0,
{
    a - trunc_div(a, b) * b
}

/// The absolute value of `v`.
pub open spec fn abs(v: int) -> int {
    if v >= 0 {
        v
    } else {
        -v
    }
}

/// The smaller of two integers.
pub open spec fn min_int(a: int, b: int) -> int {
    if a <= b {
        a
    } else {
        b
    }
}

/// The larger of two integers.
pub open spec fn max_int(a: int, b: int) -> int {
    if a >= b {
        a
    } else {
        b
    }
}

/// Rounding toward zero leaves a remainder that is smaller in magnitude than
/// the divisor and never has the opposite sign of the dividend.
pub proof fn lemma_trunc_div_remainder(a: int, b: int)
    requires
        b != 0,
    ensures
        abs(trunc_rem(a, b)) < abs(b),
        a >= 0 ==> trunc_rem(a, b) >= 0,
        a <= 0 ==> trunc_rem(a, b) <= 0,
{
    if a == 0 {
        lemma_zero_quotient(b);
        assert((0int / b) * b == 0) by (nonlinear_arith)
            requires
                0int / b == 0,
        ;
    } else if a > 0 {
        lemma_euclid(a, b);
    } else {
        lemma_euclid(-a, b);
        assert((-((-a) / b)) * b == -(((-a) / b) * b)) by (nonlinear_arith);
    }
}

/// The quotient rounded toward zero is the only one that leaves such a
/// remainder: any `q` whose remainder `a - q * b` is smaller in magnitude than
/// `b` and does not have the opposite sign of `a` is `trunc_div(a, b)`.
pub proof fn lemma_trunc_div_unique(a: int, b: int, q: int)
    requires
        b != 0,
        abs(a - q * b) < abs(b),
        a >= 0 ==> a - q * b >= 0,
        a <= 0 ==> a - q * b <= 0,
    ensures
        q == trunc_div(a, b),
{
    let t = trunc_div(a, b);
    lemma_trunc_div_remainder(a, b);
    let d = q - t;
    assert(d * b == (a - t * b) - (a - q * b)) by (nonlinear_arith)
        requires
            d == q - t,
    ;
    assert(abs(d * b) < abs(b));
    if d != 0 {
        assert(abs(d * b) >= abs(b)) by (nonlinear_arith)
            requires
                d != 0,
                b != 0,
        ;
    }
}

/// Rounding toward zero is symmetric: negating the dividend negates the
/// quotient.
pub proof fn lemma_trunc_div_negate(a: int, b: int)
    requires
        b != 0,
    ensures
        trunc_div(-a, b) == -trunc_div(a, b),
{
    if a == 0 {
        lemma_zero_quotient(b);
    }
}

/// No quotient is larger in magnitude than its dividend.
pub proof fn lemma_trunc_div_bounded(a: int, b: int)
    requires
        b != 0,
    ensures
        abs(trunc_div(a, b)) <= abs(a),
{
    if a >= 0 {
        lemma_euclid_bounded(a, b);
    } else {
        lemma_euclid_bounded(-a, b);
    }
}

/// Wherever the machine can divide, the quotient rounded toward zero is an
/// `i32`.
pub proof fn lemma_trunc_div_fits(a: i32, b: i32)
    requires
        div_defined(a, b),
    ensures
        fits_i32(trunc_div(a as int, b as int)),
{
    lemma_trunc_div_bounded(a as int, b as int);
    if a == i32::MIN {
        let n = -(a as int);
        let q = n / (b as int);
        lemma_euclid(n, b as int);
        if q == -n {
            assert(q * b == -0x8000_0000 * b) by (nonlinear_arith)
                requires
                    q == -0x8000_0000,
            ;
        }
    }
}

/// `a / b` as the machine computes it, with the quotient stated.
pub fn div_toward_zero(a: i32, b: i32) -> (q: i32)
    requires
        div_defined(a, b),
    ensures
        q == trunc_div(a as int, b as int),
{
    proof {
        lemma_trunc_div_fits(a, b);
    }
    a / b
}

/// Wherever the machine can divide, the remainder is an `i32`.
pub proof fn lemma_trunc_rem_fits(a: i32, b: i32)
    requires
        div_defined(a, b),
    ensures
        fits_i32(trunc_rem(a as int, b as int)),
{
    lemma_trunc_div_remainder(a as int, b as int);
}

/// `a % b` as the machine computes it, with the remainder stated: it is
/// what division rounded toward zero leaves, so it has the sign of `a`.
pub fn rem_toward_zero(a: i32, b: i32) -> (r: i32)
    requires
        div_defined(a, b),
    ensures
        r == trunc_rem(a as int, b as int),
{
    proof {
        lemma_trunc_rem_fits(a, b);
        if a >= 0 {
            lemma_euclid(a as int, b as int);
        } else {
            lemma_euclid(-(a as int), b as int);
            assert((-((-a) / (b as int))) * b == -(((-a) / (b as int)) * b)) by (nonlinear_arith);
        }
    }
    a % b
}

/// For a dividend `a >= 0` and a divisor `b > 0`, `(b + a - 1) / b` is the
/// quotient rounded up: it is the one `q` with `(q - 1) * b < a <= q * b`.
pub proof fn lemma_ceil_div(a: int, b: int)
    requires
        a >= 0,
        b > 0,
    ensures
        (trunc_div(b + a - 1, b) - 1) * b < a <= trunc_div(b + a - 1, b) * b,
{
    let n = b + a - 1;
    lemma_euclid(n, b);
    assert((n / b - 1) * b == (n / b) * b - b) by (nonlinear_arith);
}

/// Euclidean division of a dividend that is not negative: the quotient times
/// the divisor, plus a remainder below the divisor's magnitude, is the
/// dividend.
proof fn lemma_euclid(a: int, b: int)
    requires
        a >= 0,
        b != 0,
    ensures
        0 <= a - (a / b) * b < abs(b),
        a - (a / b) * b == a % b,
{
    vstd::arithmetic::div_mod::lemma_fundamental_div_mod(a, b);
    assert((a / b) * b == b * (a / b)) by (nonlinear_arith);
    if b > 0 {
        vstd::arithmetic::div_mod::lemma_mod_bound(a, b);
    } else {
        assert(0 <= a % b < -b) by (nonlinear_arith)
            requires
                b < 0,
        ;
    }
}

proof fn lemma_zero_quotient(b: int)
    requires
        b != 0,
    ensures
        0int / b == 0,
{
    assert(0int / b == 0) by (nonlinear_arith)
        requires
            b != 0,
    ;
}

proof fn lemma_euclid_bounded(a: int, b: int)
    requires
        a >= 0,
        b != 0,
    ensures
        abs(a / b) <= a,
{
    lemma_euclid(a, b);
    let q = a / b;
    if q > 0 {
        if b > 0 {
            assert(q * b >= q) by (nonlinear_arith)
                requires
                    q > 0,
                    b >= 1,
            ;
        } else {
            assert(q * b <= b) by (nonlinear_arith)
                requires
                    q >= 1,
                    b < 0,
            ;
        }
    } else if q < 0 {
        if b > 0 {
            assert(q * b <= -b) by (nonlinear_arith)
                requires
                    q <= -1,
                    b > 0,
            ;
        } else {
            assert(q * b >= -q) by (nonlinear_arith)
                requires
                    q < 0,
                    b <= -1,
            ;
        }
    }
}

} // verus!

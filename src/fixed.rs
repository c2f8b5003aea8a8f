//! Fixed-point scalars: integers counting millionths of a unit.
use vstd::prelude::*;

verus! {

/// One unit in fixed point.
pub const SCALE: i128 = 1_000_000;

/// Half a unit: the centre of the normalized steering range.
pub const HALF: i128 = 500_000;

/// Bound on the magnitude of every input quantity (a thousand units).
pub const LIMIT: i128 = 1_000_000_000;

/// `-m <= v <= m`.
pub open spec fn within(v: int, m: int) -> bool {
    -m <= v <= m
}

/// Fixed-point product, rounded down.
pub open spec fn fmul(a: int, b: int) -> int {
    (a * b) / (SCALE as int)
}

/// Fixed-point quotient, rounded down.
pub open spec fn fdiv(a: int, b: int) -> int {
    (a * SCALE) / b
}

/// Linear interpolation from `a` (at `t = 0`) to `b` (at `t = SCALE`),
/// extrapolating outside that range.
pub open spec fn flerp(a: int, b: int, t: int) -> int {
    a + fmul(b - a, t)
}

pub open spec fn fclamp(v: int, lo: int, hi: int) -> int {
    if v < lo {
        lo
    } else if v > hi {
        hi
    } else {
        v
    }
}

pub open spec fn abs(v: int) -> int {
    if v < 0 {
        -v
    } else {
        v
    }
}

pub proof fn lemma_mul_within(a: int, b: int, am: int, bm: int) by (nonlinear_arith)
    requires
        within(a, am),
        within(b, bm),
    ensures
        within(a * b, am * bm),
{
}

pub proof fn lemma_div_within(a: int, d: int, m: int)
    requires
        within(a, m),
        d > 0,
        m >= 0,
    ensures
        within(a / d, m / d + 1),
{
    assert(within(a / d, m / d + 1)) by (nonlinear_arith)
        requires
            within(a, m),
            d > 0,
            m >= 0,
    {
    }
}

/// `a / d`, rounded toward zero.
pub open spec fn tdiv(a: int, d: int) -> int {
    if a >= 0 {
        a / d
    } else {
        -((-a) / d)
    }
}

/// Rounding toward zero commutes with negation.
pub proof fn lemma_tdiv_neg(a: int, d: int)
    requires
        d > 0,
    ensures
        tdiv(-a, d) == -tdiv(a, d),
{
    if a == 0 {
        assert(0int / d == 0) by (nonlinear_arith)
            requires
                d > 0,
        {
        }
    }
}

pub proof fn lemma_tdiv_within(a: int, d: int, m: int)
    requires
        within(a, m),
        d > 0,
        m >= 0,
    ensures
        within(tdiv(a, d), m / d),
{
    if a >= 0 {
        assert(0 <= a / d <= m / d) by (nonlinear_arith)
            requires
                0 <= a <= m,
                d > 0,
        {
        }
    } else {
        assert(0 <= (-a) / d <= m / d) by (nonlinear_arith)
            requires
                0 <= -a <= m,
                d > 0,
        {
        }
    }
}

/// `a / d`, rounded toward zero.
pub fn trunc_div(a: i128, d: i128) -> (r: i128)
    requires
        d > 0,
        a > i128::MIN,
    ensures
        r == tdiv(a as int, d as int),
{
    if a >= 0 {
        a / d
    } else {
        -((-a) / d)
    }
}

/// `a / d`, rounded down.
pub fn floor_div(a: i128, d: i128) -> (r: i128)
    requires
        d > 0,
        a > i128::MIN,
    ensures
        r == a / d,
{
    if a >= 0 {
        a / d
    } else {
        let q: i128 = (-a - 1) / d;
        proof {
            assert(a / d == -(q as int) - 1) by (nonlinear_arith)
                requires
                    d > 0,
                    a < 0,
                    q as int == (-(a as int) - 1) / (d as int),
            {
            }
        }
        -q - 1
    }
}

/// Fixed-point product, rounded down.
pub fn mul_fx(a: i128, b: i128) -> (r: i128)
    requires
        within(a as int * b as int, i128::MAX as int),
    ensures
        r == fmul(a as int, b as int),
{
    floor_div(a * b, SCALE)
}

/// Fixed-point quotient, rounded down.
pub fn div_fx(a: i128, b: i128) -> (r: i128)
    requires
        b > 0,
        within(a as int * SCALE, i128::MAX as int),
    ensures
        r == fdiv(a as int, b as int),
{
    floor_div(a * SCALE, b)
}

} // verus!

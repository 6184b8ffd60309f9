//! Fixed-point numbers: an `i64` that counts units of `1 / ONE`.
//!
//! Every quantity of the curve model (speeds, multipliers, slopes, pixel
//! sizes) is such a raw value. Products and quotients round toward zero.

use vstd::prelude::*;

verus! {

/// The raw value that stands for the number one.
pub const ONE: i64 = 65536;

/// The largest magnitude, as a raw value, that a parameter or an input may have.
pub const LIMIT: i64 = 2147483648;

/// The largest magnitude, as a raw value, that a computed output may have.
pub const WIDE: i64 = 140737488355328;

/// The raw value is within `[-LIMIT, LIMIT]`.
pub open spec fn in_limit(v: int) -> bool {
    -LIMIT <= v <= LIMIT
}

/// The raw value is within `[-WIDE, WIDE]`.
pub open spec fn in_wide(v: int) -> bool {
    -WIDE <= v <= WIDE
}

/// The quotient of `n` by `d`, rounded toward zero.
pub open spec fn div_toward_zero(n: int, d: int) -> int
    recommends
        d != 0,
{
    if n >= 0 && d > 0 {
        n / d
    } else if n >= 0 {
        -(n / (-d))
    } else if d > 0 {
        -((-n) / d)
    } else {
        (-n) / (-d)
    }
}

/// The fixed-point product of two raw values, rounded toward zero.
pub open spec fn fx_mul(a: int, b: int) -> int {
    div_toward_zero(a * b, ONE as int)
}

/// The fixed-point quotient of two raw values, rounded toward zero.
pub open spec fn fx_div(a: int, b: int) -> int
    recommends
        b != 0,
{
    div_toward_zero(a * ONE, b)
}

/// A quotient rounded toward zero is no larger in magnitude than its dividend
/// and has the sign of the exact quotient.
pub proof fn lemma_div_toward_zero_bound(n: int, d: int)
    requires
        d != 0,
    ensures
        n >= 0 ==> 0 <= if d > 0 { div_toward_zero(n, d) } else { -div_toward_zero(n, d) } <= n,
        n <= 0 ==> 0 <= if d > 0 { -div_toward_zero(n, d) } else { div_toward_zero(n, d) } <= -n,
{
    let an = if n >= 0 { n } else { -n };
    let ad = if d > 0 { d } else { -d };
    assert(0 <= an / ad <= an) by (nonlinear_arith)
        requires
            an >= 0,
            ad >= 1,
    ;
}

/// The exact product of two machine integers.
pub fn wide_product(a: i64, b: i64) -> (r: i128)
    ensures
        r == a * b,
{
    assert(-0x4000_0000_0000_0000_0000_0000_0000_0000 <= a * b
        <= 0x4000_0000_0000_0000_0000_0000_0000_0000) by (nonlinear_arith)
        requires
            -0x8000_0000_0000_0000 <= a <= 0x8000_0000_0000_0000,
            -0x8000_0000_0000_0000 <= b <= 0x8000_0000_0000_0000,
    ;
    (a as i128) * (b as i128)
}

/// Divides two wide integers, rounding toward zero.
pub fn wide_div(n: i128, d: i128) -> (q: i128)
    requires
        d != 0,
        i128::MIN < n,
        i128::MIN < d,
    ensures
        q == div_toward_zero(n as int, d as int),
{
    if n >= 0 && d > 0 {
        n / d
    } else if n >= 0 {
        -(n / (-d))
    } else if d > 0 {
        -((-n) / d)
    } else {
        (-n) / (-d)
    }
}

/// The fixed-point product `a * b`, for an output-sized `a` and a
/// parameter-sized `b`.
pub fn product(a: i64, b: i64) -> (r: i64)
    requires
        in_wide(a as int),
        in_limit(b as int),
    ensures
        r == fx_mul(a as int, b as int),
        a * b >= 0 ==> r >= 0,
        a * b <= 0 ==> r <= 0,
{
    let wide: i128 = wide_product(a, b);
    assert(-0x4000_0000_0000_0000_0000 <= a * b <= 0x4000_0000_0000_0000_0000)
        by (nonlinear_arith)
        requires
            -0x8000_0000_0000 <= a <= 0x8000_0000_0000,
            -0x8000_0000 <= b <= 0x8000_0000,
    ;
    let q: i128 = wide_div(wide, ONE as i128);
    q as i64
}

/// The fixed-point quotient `a / b`, for a dividend of at most half the
/// output magnitude.
pub fn quotient(a: i64, b: i64) -> (r: i64)
    requires
        in_wide(2 * a),
        b != 0,
    ensures
        r == fx_div(a as int, b as int),
        -(WIDE * ONE) <= 2 * r <= WIDE * ONE,
{
    let wide: i128 = wide_product(a, ONE);
    proof {
        lemma_div_toward_zero_bound(a * ONE, b as int);
    }
    let q: i128 = wide_div(wide, b as i128);
    q as i64
}

} // verus!

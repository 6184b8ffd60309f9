//! The sensitivity curve: from an input magnitude to the output multiplier
//! of each of the two channels.

use vstd::prelude::*;
use crate::fixed::{
    fx_div, fx_mul, lemma_div_toward_zero_bound, product, quotient, LIMIT, ONE, WIDE,
};
use crate::param::Params;

verus! {

/// The family of curve shapes.
#[derive(Clone, Copy, Debug, PartialEq, Eq, Structural)]
pub enum AccelMode {
    Linear,
    Natural,
    Synchronous,
}

/// Why a computation on the curve was refused.
#[derive(Clone, Copy, Debug, PartialEq, Eq, Structural)]
pub enum CurveError {
    /// A value lies outside its domain.
    InvalidParameter,
    /// The curve of this mode has no closed form here.
    UnsupportedMode,
}

/// The output of the primary channel once the cap is reached.
pub open spec fn cap_output(p: Params) -> int {
    fx_mul(p.sens_mult as int, p.output_cap as int)
}

/// The input magnitude at which the ramp reaches the cap.
pub open spec fn cap_input(p: Params) -> int {
    p.offset + fx_div(fx_mul(p.sens_mult as int, p.output_cap - ONE), p.accel as int)
}

/// The ramp that starts at the offset with slope `accel`.
pub open spec fn ramp(p: Params, x: int) -> int {
    p.sens_mult + fx_mul(x - p.offset, p.accel as int)
}

/// The primary channel of the linear curve at input `x`.
pub open spec fn linear_primary(p: Params, x: int) -> int {
    if p.degenerate_cap() {
        p.sens_mult as int
    } else if p.output_cap > ONE && x >= cap_input(p) {
        cap_output(p)
    } else if x <= p.offset {
        p.sens_mult as int
    } else {
        ramp(p, x)
    }
}

/// The secondary channel: the primary one scaled by the ratio.
pub open spec fn linear_secondary(p: Params, x: int) -> int {
    fx_mul(linear_primary(p, x), p.yx_ratio as int)
}

/// The input magnitude is one that the curve is defined on.
pub open spec fn in_domain(x: int) -> bool {
    0 <= x <= LIMIT
}

/// The error, if any, with which an evaluation at `x` ends.
pub open spec fn evaluate_error(mode: AccelMode, p: Params, x: int) -> Option<CurveError> {
    if mode != AccelMode::Linear {
        Some(CurveError::UnsupportedMode)
    } else if !p.valid_linear() || !in_domain(x) {
        Some(CurveError::InvalidParameter)
    } else {
        None
    }
}

/// The cap's coordinates fit the output magnitude.
pub proof fn lemma_cap_bounds(p: Params)
    requires
        p.valid(),
        p.output_cap > ONE,
        p.accel != 0,
    ensures
        0 <= cap_output(p) <= WIDE / 2,
        cap_output(p) == p.sens_mult + fx_mul(p.sens_mult as int, p.output_cap - ONE),
        0 <= fx_mul(p.sens_mult as int, p.output_cap - ONE) <= WIDE / 2,
        -(WIDE * ONE) / 2 <= cap_input(p) <= LIMIT + (WIDE * ONE) / 2,
        p.accel > 0 ==> cap_input(p) >= p.offset,
        p.accel < 0 ==> cap_input(p) <= p.offset,
{
    let s = p.sens_mult as int;
    let c = p.output_cap as int;
    assert(0 <= s * c <= 0x4000_0000_0000_0000) by (nonlinear_arith)
        requires
            0 < s <= 0x8000_0000,
            0 < c <= 0x8000_0000,
    ;
    assert(0 <= s * (c - ONE) <= 0x4000_0000_0000_0000 && s * (c - ONE) == s * c - s * 65536)
        by (nonlinear_arith)
        requires
            0 < s <= 0x8000_0000,
            65536 < c <= 0x8000_0000,
            ONE == 65536,
    ;
    let d = fx_mul(s, c - ONE);
    assert(d == (s * c - s * 65536) / 65536);
    assert(d == (s * c) / 65536 - s);
    lemma_div_toward_zero_bound(d * ONE, p.accel as int);
}

/// The input at which the ramp reaches a cap above one, and the output that
/// the curve keeps from there.
pub fn cap_reach(params: &Params) -> (at: (i64, i64))
    requires
        params.valid(),
        params.output_cap > ONE,
        params.accel != 0,
    ensures
        at.0 == cap_input(*params),
        at.1 == cap_output(*params),
        0 <= at.1 <= WIDE / 2,
{
    proof {
        lemma_cap_bounds(*params);
    }
    let rise: i64 = product(params.sens_mult, params.output_cap - ONE);
    let cap_x: i64 = params.offset + quotient(rise, params.accel);
    let cap_y: i64 = product(params.sens_mult, params.output_cap);
    (cap_x, cap_y)
}

/// Evaluates both channels of the curve at input magnitude `x`.
///
/// Only the linear curve is evaluated here. Without a cap the output is the
/// baseline up to the offset and the ramp beyond it; a cap in `(0, 1]` keeps
/// the output at the baseline; a cap above one flattens the ramp from the
/// input at which it reaches `sens_mult * output_cap`. The secondary channel
/// is the primary one scaled by `yx_ratio`.
///
/// Any other mode is refused as unsupported. Parameters that are not valid
/// for the linear curve, and an input outside `[0, LIMIT]`, are refused as
/// invalid.
pub fn evaluate(mode: AccelMode, params: &Params, x: i64) -> (r: Result<(i64, i64), CurveError>)
    ensures
        match r {
            Ok((primary, secondary)) => {
                &&& evaluate_error(mode, *params, x as int) is None
                &&& primary == linear_primary(*params, x as int)
                &&& secondary == linear_secondary(*params, x as int)
            },
            Err(e) => evaluate_error(mode, *params, x as int) == Some(e),
        },
{
    match mode {
        AccelMode::Linear => {},
        _ => {
            return Err(CurveError::UnsupportedMode);
        },
    }
    if !params.is_valid_linear() || x < 0 || x > LIMIT {
        return Err(CurveError::InvalidParameter);
    }
    let primary: i64 = linear_sensitivity(params, x);
    let secondary: i64 = product(primary, params.yx_ratio);
    Ok((primary, secondary))
}

/// The primary channel of the linear curve, for valid parameters.
pub fn linear_sensitivity(params: &Params, x: i64) -> (y: i64)
    requires
        params.valid_linear(),
        in_domain(x as int),
    ensures
        y == linear_primary(*params, x as int),
        -WIDE <= y <= WIDE,
{
    if 0 < params.output_cap && params.output_cap <= ONE {
        return params.sens_mult;
    }
    if params.output_cap > ONE {
        let (cap_x, cap_y) = cap_reach(params);
        if x >= cap_x {
            return cap_y;
        }
    }
    if x <= params.offset {
        params.sens_mult
    } else {
        let rise: i64 = product(x - params.offset, params.accel);
        proof {
            let dx = x - params.offset;
            let a = params.accel as int;
            assert(-0x4000_0000_0000_0000 <= dx * a <= 0x4000_0000_0000_0000)
                by (nonlinear_arith)
                requires
                    0 < dx <= 0x8000_0000,
                    -0x8000_0000 <= a <= 0x8000_0000,
            ;
        }
        params.sens_mult + rise
    }
}

} // verus!

//! Sampling of the curve over a bounded input range into gap-aware paths.
//!
//! A path is a list of steps. Each step either joins its point to the one
//! before it or starts a new segment; a point whose output lies outside the
//! visible range always starts one, so that no line is drawn to it.

use vstd::prelude::*;
use vstd::arithmetic::div_mod::lemma_fundamental_div_mod_converse;
use crate::control::Coord;
use crate::curve::{linear_primary, linear_secondary, linear_sensitivity, AccelMode, CurveError};
use crate::fixed::{in_limit, product, LIMIT};
use crate::param::{within_limit, Params};

verus! {

/// One step of a path.
#[derive(Clone, Copy, Debug, PartialEq, Eq, Structural)]
pub struct PathStep {
    /// Where the step ends.
    pub point: Coord,
    /// Whether a line joins the point before it to this one.
    pub joined: bool,
}

/// How many inputs are sampled: one per full step below `hi`, and `hi` itself.
pub open spec fn sample_count(lo: int, hi: int, step: int) -> int
    recommends
        lo <= hi,
        step > 0,
{
    (hi - lo + step - 1) / step + 1
}

/// The `i`-th sampled input: `i` steps above `lo`, but never beyond `hi`.
pub open spec fn sample_input(lo: int, hi: int, step: int, i: int) -> int {
    if lo + i * step < hi {
        lo + i * step
    } else {
        hi
    }
}

/// The sampled inputs are well formed: an interval within the limits, walked
/// with a positive step.
pub open spec fn valid_sampling(lo: int, hi: int, step: int) -> bool {
    in_limit(lo) && in_limit(hi) && lo <= hi && step > 0
}

/// If `count` steps are the fewest that cover `width`, then `count` is
/// `width / step` rounded up.
pub proof fn lemma_step_count(width: int, step: int, count: int)
    requires
        step > 0,
        (count - 1) * step < width <= count * step,
    ensures
        (width + step - 1) / step == count,
{
    assert((count - 1) * step == count * step - step) by (nonlinear_arith);
    let r = width + step - 1 - count * step;
    lemma_fundamental_div_mod_converse(width + step - 1, step, count, r);
}

/// The inputs at which an interval is sampled: from `lo` in steps of `step`,
/// ending with `hi` itself, which a last partial step reaches if need be.
/// An interval with `lo > hi` or beyond the limits, and a step that is not
/// positive, are refused.
pub fn sample_inputs(lo: i64, hi: i64, step: i64) -> (r: Result<Vec<i64>, CurveError>)
    ensures
        match r {
            Ok(xs) => {
                &&& valid_sampling(lo as int, hi as int, step as int)
                &&& xs@.len() == sample_count(lo as int, hi as int, step as int)
                &&& forall|i: int|
                    0 <= i < xs@.len() ==> #[trigger] xs@[i] == sample_input(
                        lo as int,
                        hi as int,
                        step as int,
                        i,
                    )
                &&& forall|i: int| 0 <= i < xs@.len() ==> lo <= #[trigger] xs@[i] <= hi
            },
            Err(e) => {
                &&& e == CurveError::InvalidParameter
                &&& !valid_sampling(lo as int, hi as int, step as int)
            },
        },
{
    if !within_limit(lo) || !within_limit(hi) || lo > hi || step <= 0 {
        return Err(CurveError::InvalidParameter);
    }
    let mut xs: Vec<i64> = Vec::new();
    let mut x: i64 = lo;
    assert(xs@.len() * step == 0) by (nonlinear_arith)
        requires
            xs@.len() == 0,
    ;
    while hi - x > step
        invariant
            valid_sampling(lo as int, hi as int, step as int),
            lo <= x <= hi,
            x == lo + xs@.len() * step,
            forall|i: int| 0 <= i < xs@.len() ==> #[trigger] xs@[i] == lo + i * step,
            forall|i: int| 0 <= i < xs@.len() ==> lo <= #[trigger] xs@[i] < hi,
        decreases hi - x,
    {
        proof {
            let n = xs@.len() as int;
            assert((n + 1) * step == n * step + step) by (nonlinear_arith);
        }
        xs.push(x);
        x = x + step;
    }
    let ghost taken = xs@.len() as int;
    if x < hi {
        xs.push(x);
    }
    xs.push(hi);
    proof {
        let count = xs@.len() as int - 1;
        assert((taken + 1) * step == taken * step + step) by (nonlinear_arith);
        assert((count - 1) * step < hi - lo <= count * step) by (nonlinear_arith)
            requires
                x == lo + taken * step,
                x <= hi,
                hi - x <= step,
                step > 0,
                count == if x < hi { taken + 1 } else { taken },
        ;
        lemma_step_count(hi - lo, step as int, count);
        assert(lo + count * step >= hi) by (nonlinear_arith)
            requires
                hi - lo <= count * step,
        ;
    }
    Ok(xs)
}

/// The step that ends at `at`: joined to the point before it unless it is the
/// first of the path or its output lies outside `[lo, hi]`.
pub open spec fn path_step(at: Coord, first: bool, lo: int, hi: int) -> PathStep {
    PathStep { point: at, joined: !first && lo <= at.y <= hi }
}

/// The path through `points` for the visible output range `[lo, hi]`.
pub open spec fn traced(points: Seq<Coord>, lo: int, hi: int) -> Seq<PathStep> {
    Seq::new(points.len(), |i: int| path_step(points[i], i == 0, lo, hi))
}

/// Turns sampled points into a path, breaking it at each point whose output
/// lies outside the visible range `[range_lo, range_hi]`.
pub fn trace(points: &Vec<Coord>, range_lo: i64, range_hi: i64) -> (path: Vec<PathStep>)
    ensures
        path@ == traced(points@, range_lo as int, range_hi as int),
{
    let mut path: Vec<PathStep> = Vec::new();
    let mut i: usize = 0;
    while i < points.len()
        invariant
            i <= points@.len(),
            path@.len() == i,
            forall|j: int|
                0 <= j < i ==> #[trigger] path@[j] == path_step(
                    points@[j],
                    j == 0,
                    range_lo as int,
                    range_hi as int,
                ),
        decreases points@.len() - i,
    {
        let at: Coord = points[i];
        let joined: bool = i > 0 && range_lo <= at.y && at.y <= range_hi;
        path.push(PathStep { point: at, joined });
        i = i + 1;
    }
    assert(path@ =~= traced(points@, range_lo as int, range_hi as int));
    path
}

/// The polyline segments of a path: a step that is not joined, and the
/// first step in any case, starts a new segment.
pub open spec fn segments_of(path: Seq<PathStep>) -> Seq<Seq<Coord>>
    decreases path.len(),
{
    if path.len() == 0 {
        Seq::empty()
    } else {
        let before = segments_of(path.drop_last());
        let step = path.last();
        if step.joined && before.len() > 0 {
            before.drop_last().push(before.last().push(step.point))
        } else {
            before.push(seq![step.point])
        }
    }
}

/// The segments held by a vector of vectors.
pub open spec fn segment_views(held: Seq<Vec<Coord>>) -> Seq<Seq<Coord>> {
    Seq::new(held.len(), |k: int| held[k]@)
}

/// Splits a path into its polyline segments, each an ordered list of points.
pub fn segments(path: &Vec<PathStep>) -> (found: Vec<Vec<Coord>>)
    ensures
        segment_views(found@) == segments_of(path@),
{
    let mut found: Vec<Vec<Coord>> = Vec::new();
    let mut i: usize = 0;
    assert(path@.take(0) =~= Seq::empty());
    assert(segment_views(found@) =~= segments_of(path@.take(0)));
    while i < path.len()
        invariant
            i <= path@.len(),
            segment_views(found@) == segments_of(path@.take(i as int)),
        decreases path@.len() - i,
    {
        let step: PathStep = path[i];
        let ghost before = segment_views(found@);
        proof {
            assert(path@.take(i + 1).drop_last() =~= path@.take(i as int));
            assert(path@.take(i + 1).last() == step);
        }
        match found.pop() {
            Some(mut last) => {
                if step.joined {
                    last.push(step.point);
                    found.push(last);
                    assert(segment_views(found@) =~= before.drop_last().push(
                        before.last().push(step.point),
                    ));
                } else {
                    found.push(last);
                    let mut fresh: Vec<Coord> = Vec::new();
                    fresh.push(step.point);
                    found.push(fresh);
                    assert(segment_views(found@) =~= before.push(seq![step.point]));
                }
            },
            None => {
                let mut fresh: Vec<Coord> = Vec::new();
                fresh.push(step.point);
                found.push(fresh);
                assert(segment_views(found@) =~= before.push(seq![step.point]));
            },
        }
        i = i + 1;
    }
    assert(path@.take(i as int) =~= path@);
    found
}

/// The point of one channel of the linear curve at input `x`.
pub open spec fn curve_point(p: Params, x: int, secondary: bool) -> Coord {
    Coord {
        x: x as i64,
        y: if secondary {
            linear_secondary(p, x) as i64
        } else {
            linear_primary(p, x) as i64
        },
    }
}

/// The points of one channel of the linear curve over the sampled inputs.
pub open spec fn sampled_points(p: Params, lo: int, hi: int, step: int, secondary: bool) -> Seq<
    Coord,
> {
    Seq::new(
        sample_count(lo, hi, step) as nat,
        |i: int| curve_point(p, sample_input(lo, hi, step, i), secondary),
    )
}

/// The error, if any, with which sampling ends.
pub open spec fn sample_error(mode: AccelMode, p: Params, lo: int, hi: int, step: int) -> Option<
    CurveError,
> {
    if mode != AccelMode::Linear {
        Some(CurveError::UnsupportedMode)
    } else if !p.valid_linear() || !valid_sampling(lo, hi, step) || lo < 0 {
        Some(CurveError::InvalidParameter)
    } else {
        None
    }
}

/// Samples both channels of the curve over the inputs `[domain_lo, domain_hi]`
/// and returns the path of each for the visible outputs `[range_lo, range_hi]`.
///
/// Any mode but the linear one is refused as unsupported. Invalid parameters,
/// an input range that is reversed, starts below zero or ends beyond the
/// limit, and a step that is not positive are refused as invalid.
pub fn sample(
    mode: AccelMode,
    params: &Params,
    domain_lo: i64,
    domain_hi: i64,
    range_lo: i64,
    range_hi: i64,
    step: i64,
) -> (r: Result<(Vec<PathStep>, Vec<PathStep>), CurveError>)
    ensures
        match r {
            Ok((primary, secondary)) => {
                &&& sample_error(mode, *params, domain_lo as int, domain_hi as int, step as int)
                    is None
                &&& primary@ == traced(
                    sampled_points(*params, domain_lo as int, domain_hi as int, step as int, false),
                    range_lo as int,
                    range_hi as int,
                )
                &&& secondary@ == traced(
                    sampled_points(*params, domain_lo as int, domain_hi as int, step as int, true),
                    range_lo as int,
                    range_hi as int,
                )
            },
            Err(e) => sample_error(
                mode,
                *params,
                domain_lo as int,
                domain_hi as int,
                step as int,
            ) == Some(e),
        },
{
    match mode {
        AccelMode::Linear => {},
        _ => {
            return Err(CurveError::UnsupportedMode);
        },
    }
    if !params.is_valid_linear() || domain_lo < 0 {
        return Err(CurveError::InvalidParameter);
    }
    let xs: Vec<i64> = match sample_inputs(domain_lo, domain_hi, step) {
        Ok(xs) => xs,
        Err(e) => {
            return Err(e);
        },
    };
    let mut primary: Vec<Coord> = Vec::new();
    let mut secondary: Vec<Coord> = Vec::new();
    let mut i: usize = 0;
    while i < xs.len()
        invariant
            params.valid_linear(),
            0 <= domain_lo <= domain_hi <= LIMIT,
            i <= xs@.len(),
            primary@.len() == i,
            secondary@.len() == i,
            forall|j: int| 0 <= j < xs@.len() ==> domain_lo <= #[trigger] xs@[j] <= domain_hi,
            forall|j: int|
                0 <= j < i ==> #[trigger] primary@[j] == curve_point(*params, xs@[j] as int, false),
            forall|j: int|
                0 <= j < i ==> #[trigger] secondary@[j] == curve_point(
                    *params,
                    xs@[j] as int,
                    true,
                ),
        decreases xs@.len() - i,
    {
        let x: i64 = xs[i];
        let y: i64 = linear_sensitivity(params, x);
        let scaled: i64 = product(y, params.yx_ratio);
        primary.push(Coord { x, y });
        secondary.push(Coord { x, y: scaled });
        i = i + 1;
    }
    assert(primary@ =~= sampled_points(
        *params,
        domain_lo as int,
        domain_hi as int,
        step as int,
        false,
    ));
    assert(secondary@ =~= sampled_points(
        *params,
        domain_lo as int,
        domain_hi as int,
        step as int,
        true,
    ));
    Ok((trace(&primary, range_lo, range_hi), trace(&secondary, range_lo, range_hi)))
}

} // verus!

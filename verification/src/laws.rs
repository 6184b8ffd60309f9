//! Laws of the curve model: what holds of the evaluated curve, of the
//! controls derived from it and of the paths traced through its samples.

use vstd::prelude::*;
use crate::control::{cap_corner, cap_in_view, control_points, Coord};
use crate::curve::{cap_input, cap_output, lemma_cap_bounds, linear_primary, AccelMode};
use crate::fixed::{fx_mul, ONE};
use crate::param::Params;
use crate::sampler::{segments_of, traced, PathStep};

verus! {

/// The magnitude of an integer.
pub open spec fn magnitude(v: int) -> int {
    if v >= 0 {
        v
    } else {
        -v
    }
}

/// Without a cap the curve passes through the baseline exactly at the offset.
pub proof fn lemma_uncapped_baseline_at_offset(p: Params)
    requires
        p.valid_linear(),
        p.output_cap <= 0,
    ensures
        linear_primary(p, p.offset as int) == p.sens_mult,
{
}

/// Without a cap and with a positive slope the curve never falls.
pub proof fn lemma_uncapped_non_decreasing(p: Params, x1: int, x2: int)
    requires
        p.valid_linear(),
        p.output_cap <= 0,
        p.accel > 0,
        x1 <= x2,
    ensures
        linear_primary(p, x1) <= linear_primary(p, x2),
{
    let a = p.accel as int;
    let d1 = x1 - p.offset;
    let d2 = x2 - p.offset;
    if x2 > p.offset {
        assert(d2 * a >= 0) by (nonlinear_arith)
            requires
                d2 > 0,
                a > 0,
        ;
        if x1 > p.offset {
            assert(0 <= d1 * a <= d2 * a) by (nonlinear_arith)
                requires
                    0 < d1 <= d2,
                    a > 0,
            ;
        }
    }
}

/// Without a cap the curve has no jumps: between two inputs the output
/// changes by no more than the slope allows for their distance, plus one
/// unit of rounding.
pub proof fn lemma_uncapped_continuous(p: Params, x1: int, x2: int)
    requires
        p.valid_linear(),
        p.output_cap <= 0,
        x1 <= x2,
    ensures
        magnitude(linear_primary(p, x2) - linear_primary(p, x1)) <= fx_mul(
            x2 - x1,
            magnitude(p.accel as int),
        ) + 1,
{
    let a = magnitude(p.accel as int);
    let d1 = x1 - p.offset;
    let d2 = x2 - p.offset;
    let d = x2 - x1;
    assert(d * a >= 0) by (nonlinear_arith)
        requires
            d >= 0,
            a >= 0,
    ;
    if x2 > p.offset {
        assert(d2 * p.accel == if p.accel >= 0 {
            d2 * a
        } else {
            -(d2 * a)
        }) by (nonlinear_arith)
            requires
                a == magnitude(p.accel as int),
        ;
        assert(d2 * a >= 0) by (nonlinear_arith)
            requires
                d2 > 0,
                a >= 0,
        ;
        if x1 > p.offset {
            assert(d1 * p.accel == if p.accel >= 0 {
                d1 * a
            } else {
                -(d1 * a)
            }) by (nonlinear_arith)
                requires
                    a == magnitude(p.accel as int),
            ;
            assert(0 <= d1 * a && d2 * a == d1 * a + d * a) by (nonlinear_arith)
                requires
                    d1 > 0,
                    a >= 0,
                    d2 == d1 + d,
            ;
        } else {
            assert(d2 * a <= d * a) by (nonlinear_arith)
                requires
                    0 < d2 <= d,
                    a >= 0,
            ;
        }
    }
}

/// Under a cap above one the curve has the capped output at the input where
/// the ramp reaches the cap, and keeps it at every input beyond.
pub proof fn lemma_capped_flat_from_cap(p: Params, x: int)
    requires
        p.valid_linear(),
        p.output_cap > ONE,
        x >= cap_input(p),
    ensures
        linear_primary(p, cap_input(p)) == fx_mul(p.sens_mult as int, p.output_cap as int),
        linear_primary(p, x) == linear_primary(p, cap_input(p)),
{
}

/// Under a cap above one and with a positive slope the curve never falls:
/// the ramp stays below the capped output until it reaches the cap.
pub proof fn lemma_capped_non_decreasing(p: Params, x1: int, x2: int)
    requires
        p.valid_linear(),
        p.output_cap > ONE,
        p.accel > 0,
        x1 <= x2,
    ensures
        linear_primary(p, x1) <= linear_primary(p, x2),
{
    lemma_cap_bounds(p);
    let a = p.accel as int;
    let s = p.sens_mult as int;
    let reach = fx_mul(s, p.output_cap - ONE);
    let run = cap_input(p) - p.offset;
    assert(run == (reach * ONE) / a);
    assert(run * a <= reach * ONE) by (nonlinear_arith)
        requires
            run == (reach * ONE) / a,
            a > 0,
            reach * ONE >= 0,
    ;
    let d1 = x1 - p.offset;
    let d2 = x2 - p.offset;
    if x1 > p.offset && x1 < cap_input(p) {
        assert(0 <= d1 * a <= run * a - a) by (nonlinear_arith)
            requires
                0 < d1 <= run - 1,
                a > 0,
        ;
        if x2 < cap_input(p) {
            assert(d1 * a <= d2 * a) by (nonlinear_arith)
                requires
                    0 < d1 <= d2,
                    a > 0,
            ;
        }
    } else if x2 > p.offset && x2 < cap_input(p) {
        assert(d2 * a >= 0) by (nonlinear_arith)
            requires
                d2 > 0,
                a > 0,
        ;
    }
}

/// Under a cap in `(0, 1]` the curve is flat at the baseline.
pub proof fn lemma_degenerate_cap_flat(p: Params, x: int)
    requires
        p.valid_linear(),
        p.degenerate_cap(),
    ensures
        linear_primary(p, x) == p.sens_mult,
{
}

/// The ramp reaches a cap above one no later than at the offset, and at an
/// output other than the baseline: at the offset the curve is capped already.
pub open spec fn capped_at_offset(p: Params) -> bool {
    &&& p.output_cap > ONE
    &&& cap_input(p) <= p.offset
    &&& cap_output(p) != p.sens_mult
}

/// A control of the linear curve stands at the offset: the corner of a
/// positive offset, or the ramp's direction where no cap corner is in view.
pub open spec fn marks_offset(p: Params, width: int) -> bool {
    p.offset > 0 || !(p.degenerate_cap() || cap_in_view(p, width))
}

/// Every control of the linear curve is a vertex that lies on the curve,
/// unless a control stands at the offset and the curve is capped there
/// already.
pub proof fn lemma_vertices_on_curve(p: Params, width: int, i: int)
    requires
        p.valid_linear(),
        !(capped_at_offset(p) && marks_offset(p, width)),
        0 <= i < control_points(AccelMode::Linear, p, width).len(),
    ensures
        control_points(AccelMode::Linear, p, width)[i].is_vertex(),
        linear_primary(p, control_points(AccelMode::Linear, p, width)[i].location_spec().x as int)
            == control_points(AccelMode::Linear, p, width)[i].location_spec().y,
{
    if p.output_cap > ONE {
        lemma_cap_bounds(p);
        assert(cap_input(p) as i64 == cap_input(p));
        assert(cap_output(p) as i64 == cap_output(p));
    }
}

/// The corner at the cap, where the linear curve has one, lies on the curve
/// whatever the parameters.
pub proof fn lemma_cap_corner_on_curve(p: Params, width: int)
    requires
        p.valid_linear(),
        cap_in_view(p, width),
    ensures
        control_points(AccelMode::Linear, p, width).last() == cap_corner(p),
        linear_primary(p, cap_corner(p).location_spec().x as int) == cap_corner(
            p,
        ).location_spec().y,
{
    lemma_cap_bounds(p);
    assert(cap_input(p) as i64 == cap_input(p));
    assert(cap_output(p) as i64 == cap_output(p));
}

/// A path never joins a point to the one before it unless the point's own
/// output is visible, and then it always does: each break falls exactly on
/// a sample that lies outside the visible range, or on the first one.
pub proof fn lemma_breaks_where_range_is_left(points: Seq<Coord>, lo: int, hi: int, i: int)
    requires
        0 <= i < points.len(),
    ensures
        traced(points, lo, hi).len() == points.len(),
        traced(points, lo, hi)[i].point == points[i],
        traced(points, lo, hi)[i].joined <==> (i > 0 && lo <= points[i].y <= hi),
{
}

/// The number of points that the segments hold together.
pub open spec fn total_points(segments: Seq<Seq<Coord>>) -> int
    decreases segments.len(),
{
    if segments.len() == 0 {
        0
    } else {
        total_points(segments.drop_last()) + segments.last().len()
    }
}

/// Splitting a path into segments loses no point and makes no empty segment.
pub proof fn lemma_segments_hold_every_point(path: Seq<PathStep>)
    ensures
        total_points(segments_of(path)) == path.len(),
        forall|k: int|
            0 <= k < segments_of(path).len() ==> (#[trigger] segments_of(path)[k]).len() > 0,
        path.len() > 0 ==> segments_of(path).len() > 0,
    decreases path.len(),
{
    if path.len() > 0 {
        lemma_segments_hold_every_point(path.drop_last());
        let before = segments_of(path.drop_last());
        let step = path.last();
        if step.joined && before.len() > 0 {
            let grown = before.drop_last().push(before.last().push(step.point));
            assert(grown.drop_last() =~= before.drop_last());
        } else {
            let grown = before.push(seq![step.point]);
            assert(grown.drop_last() =~= before);
        }
    }
}

/// Within a segment of a traced path every point after the first has a
/// visible output: no line is drawn to a point outside the visible range,
/// whether the point before it was inside or not.
pub proof fn lemma_segments_stay_visible(points: Seq<Coord>, lo: int, hi: int)
    ensures
        forall|k: int, j: int|
            0 <= k < segments_of(traced(points, lo, hi)).len() && 1 <= j < segments_of(
                traced(points, lo, hi),
            )[k].len() ==> lo <= (#[trigger] segments_of(traced(points, lo, hi))[k][j]).y <= hi,
    decreases points.len(),
{
    let path = traced(points, lo, hi);
    if points.len() > 0 {
        lemma_segments_stay_visible(points.drop_last(), lo, hi);
        assert(path.drop_last() =~= traced(points.drop_last(), lo, hi));
        let before = segments_of(path.drop_last());
        let step = path.last();
        assert(step.joined ==> lo <= step.point.y <= hi);
    }
}

} // verus!

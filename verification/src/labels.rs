//! Axis labels: the regular grid merged with the coordinates of the controls,
//! clipped to the axis, in ascending order and without repeats.

use vstd::prelude::*;
use crate::control::Control;

verus! {

/// One of the two axes of the graph.
#[derive(Clone, Copy, Debug, PartialEq, Eq, Structural)]
pub enum Axis {
    /// The axis of input magnitudes.
    X,
    /// The axis of output multipliers.
    Y,
}

/// Every value is smaller than each value after it.
pub open spec fn strictly_ascending(s: Seq<i64>) -> bool {
    forall|i: int, j: int| 0 <= i < j < s.len() ==> s[i] < s[j]
}

/// The value gets a label: it lies on the axis `[0, bound]` and is a grid
/// position or a coordinate of a control.
pub open spec fn labelled(v: i64, ticks: Seq<i64>, extra: Seq<i64>, bound: int) -> bool {
    0 <= v <= bound && (ticks.contains(v) || extra.contains(v))
}

/// The coordinate of a control's location along an axis.
pub open spec fn coordinate(control: Control, axis: Axis) -> i64 {
    match axis {
        Axis::X => control.location_spec().x,
        Axis::Y => control.location_spec().y,
    }
}

/// The coordinates of the controls along an axis, in their order.
pub open spec fn projected(controls: Seq<Control>, axis: Axis) -> Seq<i64> {
    Seq::new(controls.len(), |i: int| coordinate(controls[i], axis))
}

/// The `i`-th grid position: `i + 1` spacings from zero.
pub open spec fn grid_tick(spacing: int, i: int) -> int {
    (i + 1) * spacing
}

/// How many grid positions lie in `(0, bound]`.
pub open spec fn grid_count(spacing: int, bound: int) -> int {
    if spacing > 0 && bound >= spacing {
        bound / spacing
    } else {
        0
    }
}

/// The evenly spaced grid positions in `(0, bound]`: the multiples of
/// `spacing`, ascending. There are none unless `spacing` is positive.
pub fn grid_ticks(spacing: i64, bound: i64) -> (ticks: Vec<i64>)
    ensures
        ticks@.len() == grid_count(spacing as int, bound as int),
        forall|i: int|
            0 <= i < ticks@.len() ==> #[trigger] ticks@[i] == grid_tick(spacing as int, i),
{
    let mut ticks: Vec<i64> = Vec::new();
    if spacing <= 0 || bound < spacing {
        return ticks;
    }
    let mut t: i64 = spacing;
    assert(1 * spacing == spacing) by (nonlinear_arith);
    loop
        invariant_except_break
            0 < spacing <= t <= bound,
            t == (ticks@.len() + 1) * spacing,
            forall|i: int|
                0 <= i < ticks@.len() ==> #[trigger] ticks@[i] == grid_tick(spacing as int, i),
        ensures
            0 < spacing <= bound,
            ticks@.len() * spacing <= bound < (ticks@.len() + 1) * spacing,
            forall|i: int|
                0 <= i < ticks@.len() ==> #[trigger] ticks@[i] == grid_tick(spacing as int, i),
        decreases bound - t,
    {
        ticks.push(t);
        proof {
            let n = ticks@.len() as int;
            assert((n + 1) * spacing == n * spacing + spacing) by (nonlinear_arith);
        }
        if bound - t < spacing {
            break ;
        }
        t = t + spacing;
    }
    proof {
        let n = ticks@.len() as int;
        assert((n + 1) * spacing == n * spacing + spacing) by (nonlinear_arith);
        vstd::arithmetic::div_mod::lemma_fundamental_div_mod_converse(
            bound as int,
            spacing as int,
            n,
            bound - n * spacing,
        );
    }
    ticks
}

/// The coordinates of the controls along an axis.
pub fn projections(controls: &Vec<Control>, axis: Axis) -> (values: Vec<i64>)
    ensures
        values@ == projected(controls@, axis),
{
    let mut values: Vec<i64> = Vec::new();
    let mut i: usize = 0;
    while i < controls.len()
        invariant
            i <= controls@.len(),
            values@.len() == i,
            forall|j: int| 0 <= j < i ==> #[trigger] values@[j] == coordinate(controls@[j], axis),
        decreases controls@.len() - i,
    {
        let at = controls[i].location();
        let v: i64 = match axis {
            Axis::X => at.x,
            Axis::Y => at.y,
        };
        values.push(v);
        i = i + 1;
    }
    assert(values@ =~= projected(controls@, axis));
    values
}

/// Puts `v` at its place among ascending labels, unless it is there already.
pub fn insert_label(labels: &mut Vec<i64>, v: i64)
    requires
        strictly_ascending(old(labels)@),
    ensures
        strictly_ascending(final(labels)@),
        forall|w: i64|
            #[trigger] final(labels)@.contains(w) <==> (old(labels)@.contains(w) || w == v),
{
    let mut pos: usize = 0;
    while pos < labels.len() && labels[pos] < v
        invariant
            pos <= labels@.len(),
            labels@ == old(labels)@,
            forall|j: int| 0 <= j < pos ==> #[trigger] labels@[j] < v,
        decreases labels@.len() - pos,
    {
        pos = pos + 1;
    }
    if pos < labels.len() && labels[pos] == v {
        assert(labels@.contains(v));
        return ;
    }
    let ghost before = labels@;
    labels.insert(pos, v);
    proof {
        before.insert_ensures(pos as int, v);
        let after = labels@;
        assert forall|i: int, j: int| 0 <= i < j < after.len() implies after[i] < after[j] by {
            if j < pos {
                assert(after[i] == before[i] && after[j] == before[j]);
            } else if j == pos {
                assert(after[i] == before[i]);
            } else if i < pos {
                assert(after[i] == before[i] && after[j] == before[j - 1]);
            } else if i == pos {
                assert(after[j] == before[j - 1]);
                assert(before[pos as int] <= before[j - 1]);
            } else {
                assert(after[i] == before[i - 1] && after[j] == before[j - 1]);
            }
        }
        assert forall|w: i64| after.contains(w) <==> (before.contains(w) || w == v) by {
            if after.contains(w) {
                let k = choose|k: int| 0 <= k < after.len() && after[k] == w;
                if k < pos {
                    assert(before[k] == w);
                } else if k > pos {
                    assert(before[k - 1] == w);
                }
            }
            if before.contains(w) {
                let k = choose|k: int| 0 <= k < before.len() && before[k] == w;
                if k < pos {
                    assert(after[k] == w);
                } else {
                    assert(after[k + 1] == w);
                }
            }
            if w == v {
                assert(after[pos as int] == w);
            }
        }
    }
}

/// Merges the grid positions with further positions into the labels of an
/// axis: the values within `[0, bound]`, ascending, each once.
pub fn aggregate(ticks: &Vec<i64>, extra: &Vec<i64>, bound: i64) -> (labels: Vec<i64>)
    ensures
        strictly_ascending(labels@),
        labels@.no_duplicates(),
        forall|i: int| 0 <= i < labels@.len() ==> 0 <= #[trigger] labels@[i] <= bound,
        forall|v: i64| labels@.contains(v) <==> labelled(v, ticks@, extra@, bound as int),
{
    let mut labels: Vec<i64> = Vec::new();
    let mut i: usize = 0;
    while i < ticks.len()
        invariant
            i <= ticks@.len(),
            strictly_ascending(labels@),
            forall|v: i64|
                #[trigger] labels@.contains(v) <==> (0 <= v <= bound && ticks@.subrange(
                    0,
                    i as int,
                ).contains(v)),
        decreases ticks@.len() - i,
    {
        let t: i64 = ticks[i];
        proof {
            lemma_subrange_grows(ticks@, i as int);
        }
        if 0 <= t && t <= bound {
            insert_label(&mut labels, t);
        }
        i = i + 1;
    }
    assert(ticks@.subrange(0, i as int) =~= ticks@);
    let mut k: usize = 0;
    while k < extra.len()
        invariant
            k <= extra@.len(),
            strictly_ascending(labels@),
            forall|v: i64|
                #[trigger] labels@.contains(v) <==> labelled(
                    v,
                    ticks@,
                    extra@.subrange(0, k as int),
                    bound as int,
                ),
        decreases extra@.len() - k,
    {
        let t: i64 = extra[k];
        proof {
            lemma_subrange_grows(extra@, k as int);
        }
        if 0 <= t && t <= bound {
            insert_label(&mut labels, t);
        }
        k = k + 1;
    }
    assert(extra@.subrange(0, k as int) =~= extra@);
    proof {
        lemma_ascending_has_no_repeats(labels@);
        assert forall|i: int| 0 <= i < labels@.len() implies 0 <= #[trigger] labels@[i]
            <= bound by {
            assert(labels@.contains(labels@[i]));
        }
    }
    labels
}

/// Ascending labels hold no value twice.
pub proof fn lemma_ascending_has_no_repeats(s: Seq<i64>)
    requires
        strictly_ascending(s),
    ensures
        s.no_duplicates(),
{
    assert forall|i: int, j: int| 0 <= i < s.len() && 0 <= j < s.len() && i != j implies s[i]
        != s[j] by {
        if i < j {
            assert(s[i] < s[j]);
        } else {
            assert(s[j] < s[i]);
        }
    }
}

/// A prefix that grows by one element holds what it held and that element.
pub proof fn lemma_subrange_grows(s: Seq<i64>, n: int)
    requires
        0 <= n < s.len(),
    ensures
        forall|v: i64|
            #[trigger] s.subrange(0, n + 1).contains(v) <==> (s.subrange(0, n).contains(v) || v
                == s[n]),
{
    let short = s.subrange(0, n);
    let long = s.subrange(0, n + 1);
    assert forall|v: i64| long.contains(v) <==> (short.contains(v) || v == s[n]) by {
        if long.contains(v) {
            let k = choose|k: int| 0 <= k < long.len() && long[k] == v;
            if k < n {
                assert(short[k] == v);
            }
        }
        if short.contains(v) {
            let k = choose|k: int| 0 <= k < short.len() && short[k] == v;
            assert(long[k] == v);
        }
        if v == s[n] {
            assert(long[n] == v);
        }
    }
}

/// The labels of an axis: the grid positions and the coordinates of the
/// controls along that axis, within `[0, bound]`, ascending, each once.
pub fn labels(ticks: &Vec<i64>, controls: &Vec<Control>, axis: Axis, bound: i64) -> (found: Vec<
    i64,
>)
    ensures
        strictly_ascending(found@),
        found@.no_duplicates(),
        forall|i: int| 0 <= i < found@.len() ==> 0 <= #[trigger] found@[i] <= bound,
        forall|v: i64|
            found@.contains(v) <==> labelled(v, ticks@, projected(controls@, axis), bound as int),
{
    let extra: Vec<i64> = projections(controls, axis);
    aggregate(ticks, &extra, bound)
}

} // verus!

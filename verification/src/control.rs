//! The characteristic points of the curve: corners, the ramp's direction and
//! asymptotes, as they are labelled on the axes.

use vstd::prelude::*;
use crate::curve::{cap_input, cap_output, cap_reach, AccelMode, CurveError};
use crate::fixed::{fx_mul, product, ONE};
use crate::param::Params;

verus! {

/// A position in the plane of the graph: input magnitude and output multiplier.
#[derive(Clone, Copy, Debug, PartialEq, Eq, Structural)]
pub struct Coord {
    pub x: i64,
    pub y: i64,
}

/// A vertex or an asymptote of the curve.
#[derive(Clone, Copy, Debug, PartialEq, Eq, Structural)]
pub enum Control {
    /// A vertex `(x, y)` from which the curve leaves with the given slope;
    /// the direction's angle is the arctangent of the slope.
    Angle(i64, i64, i64),
    /// A vertex `(x, y)`.
    Point(i64, i64),
    /// The vertical line at input `x`.
    NormX(i64),
    /// The horizontal line at output `y`.
    NormY(i64),
}

impl Control {
    /// Where the control is labelled: a line lies on the axis that it crosses.
    pub open spec fn location_spec(self) -> Coord {
        match self {
            Control::Angle(x, y, _) => Coord { x, y },
            Control::Point(x, y) => Coord { x, y },
            Control::NormX(x) => Coord { x, y: 0 },
            Control::NormY(y) => Coord { x: 0, y },
        }
    }

    /// The control is a vertex of the curve rather than a line.
    pub open spec fn is_vertex(self) -> bool {
        self is Angle || self is Point
    }

    /// Where the control is labelled.
    pub fn location(&self) -> (at: Coord)
        ensures
            at == self.location_spec(),
    {
        match *self {
            Control::Angle(x, y, _) => Coord { x, y },
            Control::Point(x, y) => Coord { x, y },
            Control::NormX(x) => Coord { x, y: 0 },
            Control::NormY(y) => Coord { x: 0, y },
        }
    }

    /// Derives the controls of the curve of `mode` that a view of the given
    /// width shows.
    ///
    /// The synchronous curve has none. The natural curve has the start of its
    /// rise and its asymptote. The linear curve has the corner at a positive
    /// offset, then the corner at the cap where the view reaches it, or else
    /// the direction of the ramp, or nothing more under a degenerate cap.
    ///
    /// Parameters that are not valid for the linear or the natural curve are
    /// refused as invalid; the synchronous curve takes any.
    pub fn controls(mode: AccelMode, params: &Params, domain_width: i64) -> (r: Result<
        Vec<Control>,
        CurveError,
    >)
        ensures
            match r {
                Ok(found) => {
                    &&& controls_error(mode, *params) is None
                    &&& found@ == control_points(mode, *params, domain_width as int)
                },
                Err(e) => controls_error(mode, *params) == Some(e),
            },
    {
        let mut found: Vec<Control> = Vec::new();
        match mode {
            AccelMode::Synchronous => {},
            AccelMode::Natural => {
                if !params.is_valid() {
                    return Err(CurveError::InvalidParameter);
                }
                found.push(Control::Point(params.offset, params.sens_mult));
                found.push(Control::NormY(product(params.sens_mult, params.limit)));
            },
            AccelMode::Linear => {
                if !params.is_valid_linear() {
                    return Err(CurveError::InvalidParameter);
                }
                if params.offset > 0 {
                    found.push(Control::Point(params.offset, params.sens_mult));
                }
                if params.output_cap <= 0 {
                    found.push(Control::Angle(params.offset, params.sens_mult, params.accel));
                } else if params.output_cap > ONE {
                    let (cap_x, cap_y) = cap_reach(params);
                    if cap_x < domain_width {
                        found.push(Control::Point(cap_x, cap_y));
                    } else {
                        found.push(Control::Angle(params.offset, params.sens_mult, params.accel));
                    }
                }
            },
        }
        assert(found@ =~= control_points(mode, *params, domain_width as int));
        Ok(found)
    }
}

impl From<(i64, i64)> for Control {
    /// The vertex at the pair's coordinates.
    fn from(pair: (i64, i64)) -> (control: Control) {
        Control::Point(pair.0, pair.1)
    }
}

impl vstd::std_specs::convert::FromSpecImpl<(i64, i64)> for Control {
    open spec fn obeys_from_spec() -> bool {
        true
    }

    open spec fn from_spec(pair: (i64, i64)) -> Control {
        Control::Point(pair.0, pair.1)
    }
}

impl From<[i64; 2]> for Control {
    /// The vertex at the array's coordinates.
    fn from(pair: [i64; 2]) -> (control: Control) {
        Control::Point(pair[0], pair[1])
    }
}

impl vstd::std_specs::convert::FromSpecImpl<[i64; 2]> for Control {
    open spec fn obeys_from_spec() -> bool {
        true
    }

    open spec fn from_spec(pair: [i64; 2]) -> Control {
        Control::Point(pair@[0], pair@[1])
    }
}

impl From<Coord> for Control {
    /// The vertex at a position.
    fn from(at: Coord) -> (control: Control) {
        Control::Point(at.x, at.y)
    }
}

impl vstd::std_specs::convert::FromSpecImpl<Coord> for Control {
    open spec fn obeys_from_spec() -> bool {
        true
    }

    open spec fn from_spec(at: Coord) -> Control {
        Control::Point(at.x, at.y)
    }
}

/// The corner at which the flat region ends, where there is a flat region.
pub open spec fn offset_corner(p: Params) -> Seq<Control> {
    if p.offset > 0 {
        seq![Control::Point(p.offset, p.sens_mult)]
    } else {
        seq![]
    }
}

/// The direction in which the ramp leaves the offset.
pub open spec fn ramp_direction(p: Params) -> Control {
    Control::Angle(p.offset, p.sens_mult, p.accel)
}

/// The corner at which the ramp flattens under a cap above one.
pub open spec fn cap_corner(p: Params) -> Control {
    Control::Point(cap_input(p) as i64, cap_output(p) as i64)
}

/// The cap lies above one and the ramp reaches it inside a view of this width.
pub open spec fn cap_in_view(p: Params, width: int) -> bool {
    p.output_cap > ONE && cap_input(p) < width
}

/// What the linear curve shows beyond the corner at its offset.
pub open spec fn ramp_controls(p: Params, width: int) -> Seq<Control> {
    if p.degenerate_cap() {
        seq![]
    } else if cap_in_view(p, width) {
        seq![cap_corner(p)]
    } else {
        seq![ramp_direction(p)]
    }
}

/// The controls of the curve of `mode`, in the order in which they are derived.
pub open spec fn control_points(mode: AccelMode, p: Params, width: int) -> Seq<Control> {
    match mode {
        AccelMode::Linear => offset_corner(p) + ramp_controls(p, width),
        AccelMode::Natural => seq![
            Control::Point(p.offset, p.sens_mult),
            Control::NormY(fx_mul(p.sens_mult as int, p.limit as int) as i64),
        ],
        AccelMode::Synchronous => seq![],
    }
}

/// The error, if any, with which the derivation of the controls ends.
pub open spec fn controls_error(mode: AccelMode, p: Params) -> Option<CurveError> {
    match mode {
        AccelMode::Linear => if p.valid_linear() {
            None
        } else {
            Some(CurveError::InvalidParameter)
        },
        AccelMode::Natural => if p.valid() {
            None
        } else {
            Some(CurveError::InvalidParameter)
        },
        AccelMode::Synchronous => None,
    }
}

} // verus!

//! Where the labels of the axes stand on the canvas.

use vstd::prelude::*;
use crate::control::Coord;
use crate::fixed::{fx_div, fx_mul, in_limit, product, quotient};
use crate::graph::{Rectangle, Size};

verus! {

/// The distance, in pixels, between an axis and its labels: 10.
pub const LABEL_GAP: i64 = 655360;

/// The placement of the labels for axes that span an area of the canvas.
pub struct GraphTheme {
    axes: Size,
    area: Rectangle,
}

/// The canvas coordinate of an axis value: the value's share of the axis,
/// taken of the span that the axis has on the canvas, from the origin.
pub open spec fn canvas_position(value: int, span: int, axis_end: int, origin: int) -> int
    recommends
        axis_end != 0,
{
    fx_div(fx_mul(value, span), axis_end) + origin
}

/// Axes and area from which every label position can be computed.
pub open spec fn placeable(axes: Size, area: Rectangle) -> bool {
    &&& axes.width != 0
    &&& axes.height != 0
    &&& area.bounded()
}

impl GraphTheme {
    #[verifier::type_invariant]
    spec fn well_formed(self) -> bool {
        placeable(self.axes, self.area)
    }

    /// The far ends of the axes.
    pub closed spec fn axes(self) -> Size {
        self.axes
    }

    /// The area of the canvas that the axes span.
    pub closed spec fn area(self) -> Rectangle {
        self.area
    }

    /// The placement for axes that end at `axes` and span `area`.
    pub fn new(axes: Size, area: Rectangle) -> (theme: GraphTheme)
        requires
            placeable(axes, area),
        ensures
            theme.axes() == axes,
            theme.area() == area,
    {
        GraphTheme { axes, area }
    }

    /// Where the label of the input `value` stands: under its place on the
    /// input axis.
    pub fn x_label_position(&self, value: i64) -> (at: Coord)
        requires
            in_limit(value as int),
        ensures
            at.x == canvas_position(
                value as int,
                self.area().width as int,
                self.axes().width as int,
                self.area().x as int,
            ),
            at.y == self.area().y + LABEL_GAP,
    {
        proof {
            use_type_invariant(self);
        }
        let share: i64 = span_share(value, self.area.width, self.axes.width);
        Coord { x: share + self.area.x, y: self.area.y + LABEL_GAP }
    }

    /// Where the label of the output `value` stands: left of its place on
    /// the output axis.
    pub fn y_label_position(&self, value: i64) -> (at: Coord)
        requires
            in_limit(value as int),
        ensures
            at.x == self.area().x - LABEL_GAP,
            at.y == canvas_position(
                value as int,
                self.area().height as int,
                self.axes().height as int,
                self.area().y as int,
            ),
    {
        proof {
            use_type_invariant(self);
        }
        let share: i64 = span_share(value, self.area.height, self.axes.height);
        Coord { x: self.area.x - LABEL_GAP, y: share + self.area.y }
    }
}

/// The part of `span` that `value` takes of an axis ending at `axis_end`.
pub fn span_share(value: i64, span: i64, axis_end: i64) -> (share: i64)
    requires
        in_limit(value as int),
        in_limit(span as int),
        axis_end != 0,
    ensures
        share == fx_div(fx_mul(value as int, span as int), axis_end as int),
        -0x4000_0000_0000_0000 <= share <= 0x4000_0000_0000_0000,
{
    assert(-0x4000_0000_0000_0000 <= value * span <= 0x4000_0000_0000_0000) by (nonlinear_arith)
        requires
            -0x8000_0000 <= value <= 0x8000_0000,
            -0x8000_0000 <= span <= 0x8000_0000,
    ;
    let scaled: i64 = product(value, span);
    quotient(scaled, axis_end)
}

} // verus!

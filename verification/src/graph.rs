//! The graph of the curve: its axes, the plotted paths, the fill under the
//! curve up to the current input speed, and the axis labels.

use vstd::prelude::*;
use crate::control::{control_points, Control, Coord};
use crate::curve::{AccelMode, CurveError};
use crate::fixed::in_limit;
use crate::labels::{
    grid_count, grid_tick, grid_ticks, labelled, labels, projected, strictly_ascending, Axis,
};
use crate::param::{within_limit, Params};
use crate::sampler::{sample, sample_error, sampled_points, traced, PathStep};

verus! {

/// The input magnitude at which the input axis ends: 80.
pub const AXIS_WIDTH: i64 = 5242880;

/// The output multiplier at which the output axis ends: 3.
pub const AXIS_HEIGHT: i64 = 196608;

/// The distance between two sampled inputs: a quarter.
pub const STEP_SZ: i64 = 16384;

/// The distance between two grid positions of the input axis: 10.
pub const X_GRID: i64 = 655360;

/// The distance between two grid positions of the output axis: a half.
pub const Y_GRID: i64 = 32768;

/// The margin, in pixels, between the canvas and the axes: 40.
pub const ORIGIN_MARGIN: i64 = 2621440;

/// The margin, in pixels, between the canvas and the far ends of the axes: 20.
pub const EDGE_MARGIN: i64 = 1310720;

/// A width and a height.
#[derive(Clone, Copy, Debug, PartialEq, Eq, Structural)]
pub struct Size {
    pub width: i64,
    pub height: i64,
}

/// A rectangle by its corner and its extent, which may be negative.
#[derive(Clone, Copy, Debug, PartialEq, Eq, Structural)]
pub struct Rectangle {
    pub x: i64,
    pub y: i64,
    pub width: i64,
    pub height: i64,
}

impl Rectangle {
    /// Corner and extent are within the limits.
    pub open spec fn bounded(self) -> bool {
        &&& in_limit(self.x as int)
        &&& in_limit(self.y as int)
        &&& in_limit(self.width as int)
        &&& in_limit(self.height as int)
    }
}

/// All that one frame shows of the curve, in the units of the axes.
#[derive(Debug)]
pub struct Drawing {
    /// The filled region under the primary channel up to the input speed.
    pub h_speedo: Vec<PathStep>,
    /// The filled region under the secondary channel up to the input speed.
    pub v_speedo: Vec<PathStep>,
    /// The path of the primary channel.
    pub h_plot: Vec<PathStep>,
    /// The path of the secondary channel.
    pub v_plot: Vec<PathStep>,
    /// The labels of the input axis.
    pub x_labels: Vec<i64>,
    /// The labels of the output axis.
    pub y_labels: Vec<i64>,
}

/// The graph of one curve.
#[derive(Clone, Copy, Debug)]
pub struct Graph {
    pub mode: AccelMode,
    pub params: Params,
}

/// The input speed brought into the input axis.
pub open spec fn clamped_speed(speed: int) -> int {
    if speed < 0 {
        0
    } else if speed > AXIS_WIDTH {
        AXIS_WIDTH as int
    } else {
        speed
    }
}

/// A path led down to the input axis at `speed` and back to the origin,
/// which closes the region under it.
pub open spec fn closed(path: Seq<PathStep>, speed: int) -> Seq<PathStep> {
    path + seq![
        PathStep { point: Coord { x: speed as i64, y: 0 }, joined: true },
        PathStep { point: Coord { x: 0, y: 0 }, joined: true },
    ]
}

/// The plotted path of one channel over the input range of `bounds`, broken
/// where it leaves the output range of `bounds`.
pub open spec fn plotted(p: Params, bounds: Rectangle, secondary: bool) -> Seq<PathStep> {
    traced(
        sampled_points(p, bounds.x as int, bounds.x + bounds.width, STEP_SZ as int, secondary),
        bounds.y as int,
        bounds.y + bounds.height,
    )
}

/// The error, if any, with which plotting over `bounds` ends.
pub open spec fn plot_error(mode: AccelMode, p: Params, bounds: Rectangle) -> Option<CurveError> {
    if mode != AccelMode::Linear {
        Some(CurveError::UnsupportedMode)
    } else if !bounds.bounded() {
        Some(CurveError::InvalidParameter)
    } else {
        sample_error(mode, p, bounds.x as int, bounds.x + bounds.width, STEP_SZ as int)
    }
}

/// The rectangle of the axes, from the origin.
pub open spec fn axes_rectangle() -> Rectangle {
    Rectangle { x: 0, y: 0, width: AXIS_WIDTH, height: AXIS_HEIGHT }
}

/// The rectangle under the curve up to the input speed.
pub open spec fn speedo_rectangle(speed: int) -> Rectangle {
    Rectangle { x: 0, y: 0, width: clamped_speed(speed) as i64, height: AXIS_HEIGHT }
}

/// The error, if any, with which drawing ends.
pub open spec fn draw_error(mode: AccelMode, p: Params) -> Option<CurveError> {
    if mode != AccelMode::Linear {
        Some(CurveError::UnsupportedMode)
    } else if !p.valid_linear() {
        Some(CurveError::InvalidParameter)
    } else {
        None
    }
}

/// The grid positions of an axis: the multiples of `spacing` in `(0, bound]`.
pub open spec fn grid(spacing: int, bound: int) -> Seq<i64> {
    Seq::new(grid_count(spacing, bound) as nat, |i: int| grid_tick(spacing, i) as i64)
}

impl Graph {
    /// The far ends of the two axes.
    pub fn axis_bounds() -> (axes: Size)
        ensures
            axes == (Size { width: AXIS_WIDTH, height: AXIS_HEIGHT }),
    {
        Size { width: AXIS_WIDTH, height: AXIS_HEIGHT }
    }

    /// The area that the axes span on a canvas of the given size, in pixels.
    /// Its corner is the origin of the axes; its height is negative, as the
    /// output axis points up the canvas.
    pub fn graph_area(size: Size) -> (area: Rectangle)
        requires
            in_limit(size.width as int),
            in_limit(size.height as int),
        ensures
            area.x == ORIGIN_MARGIN,
            area.y == size.height - ORIGIN_MARGIN,
            area.width == size.width - ORIGIN_MARGIN - EDGE_MARGIN,
            area.height == -size.height + ORIGIN_MARGIN + EDGE_MARGIN,
    {
        Rectangle {
            x: ORIGIN_MARGIN,
            y: size.height - ORIGIN_MARGIN,
            width: size.width - ORIGIN_MARGIN - EDGE_MARGIN,
            height: -size.height + ORIGIN_MARGIN + EDGE_MARGIN,
        }
    }

    /// The graph of the curve of `mode` with the given parameters.
    pub fn new(mode: AccelMode, params: Params) -> (graph: Graph)
        ensures
            graph.mode == mode,
            graph.params == params,
    {
        Graph { mode, params }
    }

    /// Plots both channels over the input range `[x, x + width]` of `bounds`,
    /// a quarter apart, for the visible outputs `[y, y + height]`.
    pub fn build_plots(&self, bounds: Rectangle) -> (r: Result<
        (Vec<PathStep>, Vec<PathStep>),
        CurveError,
    >)
        ensures
            match r {
                Ok((primary, secondary)) => {
                    &&& plot_error(self.mode, self.params, bounds) is None
                    &&& primary@ == plotted(self.params, bounds, false)
                    &&& secondary@ == plotted(self.params, bounds, true)
                },
                Err(e) => plot_error(self.mode, self.params, bounds) == Some(e),
            },
    {
        match self.mode {
            AccelMode::Linear => {},
            _ => {
                return Err(CurveError::UnsupportedMode);
            },
        }
        if !within_limit(bounds.x) || !within_limit(bounds.y) || !within_limit(bounds.width)
            || !within_limit(bounds.height) {
            return Err(CurveError::InvalidParameter);
        }
        sample(
            self.mode,
            &self.params,
            bounds.x,
            bounds.x + bounds.width,
            bounds.y,
            bounds.y + bounds.height,
            STEP_SZ,
        )
    }

    /// The regions under both channels from zero up to the input speed, which
    /// is first brought into the input axis: each is the plotted path, led
    /// down to the axis and back to the origin.
    pub fn speedo(&self, input_speed: i64) -> (r: Result<
        (Vec<PathStep>, Vec<PathStep>),
        CurveError,
    >)
        ensures
            match r {
                Ok((primary, secondary)) => {
                    &&& draw_error(self.mode, self.params) is None
                    &&& primary@ == closed(
                        plotted(self.params, speedo_rectangle(input_speed as int), false),
                        clamped_speed(input_speed as int),
                    )
                    &&& secondary@ == closed(
                        plotted(self.params, speedo_rectangle(input_speed as int), true),
                        clamped_speed(input_speed as int),
                    )
                },
                Err(e) => draw_error(self.mode, self.params) == Some(e),
            },
    {
        let speed: i64 = if input_speed < 0 {
            0
        } else if input_speed > AXIS_WIDTH {
            AXIS_WIDTH
        } else {
            input_speed
        };
        let bounds = Rectangle { x: 0, y: 0, width: speed, height: AXIS_HEIGHT };
        match self.build_plots(bounds) {
            Ok((mut primary, mut secondary)) => {
                let down = PathStep { point: Coord { x: speed, y: 0 }, joined: true };
                let home = PathStep { point: Coord { x: 0, y: 0 }, joined: true };
                primary.push(down);
                primary.push(home);
                secondary.push(down);
                secondary.push(home);
                assert(primary@ =~= closed(
                    plotted(self.params, bounds, false),
                    clamped_speed(input_speed as int),
                ));
                assert(secondary@ =~= closed(
                    plotted(self.params, bounds, true),
                    clamped_speed(input_speed as int),
                ));
                Ok((primary, secondary))
            },
            Err(e) => Err(e),
        }
    }

    /// The labels of one axis: its grid and the coordinates of the curve's
    /// controls along it, within the axis, ascending and each once.
    pub fn axis_labels(&self, axis: Axis) -> (r: Result<Vec<i64>, CurveError>)
        ensures
            match r {
                Ok(found) => {
                    &&& crate::control::controls_error(self.mode, self.params) is None
                    &&& strictly_ascending(found@)
                    &&& found@.no_duplicates()
                    &&& forall|i: int|
                        0 <= i < found@.len() ==> 0 <= #[trigger] found@[i] <= axis_end(axis)
                    &&& forall|v: i64|
                        found@.contains(v) <==> labelled(
                            v,
                            axis_grid(axis),
                            projected(
                                control_points(self.mode, self.params, AXIS_WIDTH as int),
                                axis,
                            ),
                            axis_end(axis) as int,
                        )
                },
                Err(e) => crate::control::controls_error(self.mode, self.params) == Some(e),
            },
    {
        let controls: Vec<Control> = match Control::controls(self.mode, &self.params, AXIS_WIDTH) {
            Ok(controls) => controls,
            Err(e) => {
                return Err(e);
            },
        };
        let (spacing, bound): (i64, i64) = match axis {
            Axis::X => (X_GRID, AXIS_WIDTH),
            Axis::Y => (Y_GRID, AXIS_HEIGHT),
        };
        let ticks: Vec<i64> = grid_ticks(spacing, bound);
        assert(ticks@ =~= axis_grid(axis));
        Ok(labels(&ticks, &controls, axis, bound))
    }

    /// Everything that one frame shows: the fills up to the input speed, the
    /// two plots over the whole axes, and the labels of both axes.
    pub fn draw(&self, input_speed: i64) -> (r: Result<Drawing, CurveError>)
        ensures
            match r {
                Ok(drawing) => {
                    &&& draw_error(self.mode, self.params) is None
                    &&& drawing.h_speedo@ == closed(
                        plotted(self.params, speedo_rectangle(input_speed as int), false),
                        clamped_speed(input_speed as int),
                    )
                    &&& drawing.v_speedo@ == closed(
                        plotted(self.params, speedo_rectangle(input_speed as int), true),
                        clamped_speed(input_speed as int),
                    )
                    &&& drawing.h_plot@ == plotted(self.params, axes_rectangle(), false)
                    &&& drawing.v_plot@ == plotted(self.params, axes_rectangle(), true)
                    &&& strictly_ascending(drawing.x_labels@)
                    &&& strictly_ascending(drawing.y_labels@)
                    &&& forall|v: i64|
                        drawing.x_labels@.contains(v) <==> labelled(
                            v,
                            axis_grid(Axis::X),
                            projected(
                                control_points(self.mode, self.params, AXIS_WIDTH as int),
                                Axis::X,
                            ),
                            AXIS_WIDTH as int,
                        )
                    &&& forall|v: i64|
                        drawing.y_labels@.contains(v) <==> labelled(
                            v,
                            axis_grid(Axis::Y),
                            projected(
                                control_points(self.mode, self.params, AXIS_WIDTH as int),
                                Axis::Y,
                            ),
                            AXIS_HEIGHT as int,
                        )
                },
                Err(e) => draw_error(self.mode, self.params) == Some(e),
            },
    {
        let (h_speedo, v_speedo) = match self.speedo(input_speed) {
            Ok(paths) => paths,
            Err(e) => {
                return Err(e);
            },
        };
        let axes = Rectangle { x: 0, y: 0, width: AXIS_WIDTH, height: AXIS_HEIGHT };
        let (h_plot, v_plot) = match self.build_plots(axes) {
            Ok(paths) => paths,
            Err(e) => {
                return Err(e);
            },
        };
        let x_labels: Vec<i64> = match self.axis_labels(Axis::X) {
            Ok(found) => found,
            Err(e) => {
                return Err(e);
            },
        };
        let y_labels: Vec<i64> = match self.axis_labels(Axis::Y) {
            Ok(found) => found,
            Err(e) => {
                return Err(e);
            },
        };
        Ok(Drawing { h_speedo, v_speedo, h_plot, v_plot, x_labels, y_labels })
    }
}

/// Where an axis ends.
pub open spec fn axis_end(axis: Axis) -> i64 {
    match axis {
        Axis::X => AXIS_WIDTH,
        Axis::Y => AXIS_HEIGHT,
    }
}

/// The grid positions of an axis: every 10 along the inputs, every half
/// along the outputs.
pub open spec fn axis_grid(axis: Axis) -> Seq<i64> {
    match axis {
        Axis::X => grid(X_GRID as int, AXIS_WIDTH as int),
        Axis::Y => grid(Y_GRID as int, AXIS_HEIGHT as int),
    }
}

} // verus!

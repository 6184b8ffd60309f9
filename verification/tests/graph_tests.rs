use maccel_gui::control::{Control, Coord};
use maccel_gui::curve::{AccelMode, CurveError};
use maccel_gui::fixed::{LIMIT, ONE};
use maccel_gui::graph::{Graph, Rectangle, Size, AXIS_HEIGHT, AXIS_WIDTH, STEP_SZ};
use maccel_gui::gui::DefaultGui;
use maccel_gui::inputspeed::{diff_range, moved, read_input_speed, InputSpeed};
use maccel_gui::labels::{aggregate, grid_ticks, insert_label, labels, projections, Axis};
use maccel_gui::param::Params;
use maccel_gui::sampler::{sample, sample_inputs, segments, trace, PathStep};
use maccel_gui::theme::{span_share, GraphTheme};

fn fx(v: f64) -> i64 {
    (v * ONE as f64).round() as i64
}

fn linear(sens_mult: f64, accel: f64, offset: f64, output_cap: f64) -> Params {
    Params {
        sens_mult: fx(sens_mult),
        accel: fx(accel),
        offset: fx(offset),
        output_cap: fx(output_cap),
        yx_ratio: ONE,
        decay_rate: 0,
        limit: 0,
    }
}

fn step(x: f64, y: f64, joined: bool) -> PathStep {
    PathStep { point: Coord { x: fx(x), y: fx(y) }, joined }
}

#[test]
fn inputs_end_on_the_upper_bound() {
    assert_eq!(
        sample_inputs(0, fx(1.), fx(0.25)),
        Ok(vec![0, fx(0.25), fx(0.5), fx(0.75), fx(1.)])
    );
    assert_eq!(sample_inputs(fx(2.), fx(2.), fx(0.25)), Ok(vec![fx(2.)]));
}

#[test]
fn inputs_take_a_last_partial_step() {
    assert_eq!(sample_inputs(0, fx(0.6), fx(0.25)), Ok(vec![0, fx(0.25), fx(0.5), fx(0.6)]));
    assert_eq!(sample_inputs(fx(1.), fx(1.1), fx(0.25)), Ok(vec![fx(1.), fx(1.1)]));
    assert_eq!(sample_inputs(-3, 4, 100), Ok(vec![-3, 4]));
}

#[test]
fn quarter_step_covers_the_axis() {
    let xs = sample_inputs(0, AXIS_WIDTH, STEP_SZ).unwrap();
    assert_eq!(xs.len(), 321);
    assert_eq!(xs[0], 0);
    assert_eq!(xs[1], fx(0.25));
    assert_eq!(xs[320], fx(80.));
}

#[test]
fn malformed_sampling_is_refused() {
    assert_eq!(sample_inputs(0, fx(1.), 0), Err(CurveError::InvalidParameter));
    assert_eq!(sample_inputs(0, fx(1.), -1), Err(CurveError::InvalidParameter));
    assert_eq!(sample_inputs(fx(1.), 0, 1), Err(CurveError::InvalidParameter));
    assert_eq!(sample_inputs(0, LIMIT + 1, ONE), Err(CurveError::InvalidParameter));
    assert_eq!(sample_inputs(-LIMIT - 1, 0, ONE), Err(CurveError::InvalidParameter));
}

#[test]
fn trace_breaks_at_each_point_out_of_range() {
    let points = vec![
        Coord { x: 0, y: 1 },
        Coord { x: 1, y: 2 },
        Coord { x: 2, y: 9 },
        Coord { x: 3, y: 3 },
        Coord { x: 4, y: -1 },
        Coord { x: 5, y: -2 },
        Coord { x: 6, y: 0 },
        Coord { x: 7, y: 5 },
    ];
    let path = trace(&points, 0, 5);
    let joined: Vec<bool> = path.iter().map(|s| s.joined).collect();
    assert_eq!(joined, vec![false, true, false, true, false, false, true, true]);
    let ends: Vec<Coord> = path.iter().map(|s| s.point).collect();
    assert_eq!(ends, points);
    assert_eq!(trace(&Vec::new(), 0, 5), vec![]);
}

#[test]
fn first_point_always_starts_a_segment() {
    let path = trace(&vec![Coord { x: 0, y: 3 }], 0, 5);
    assert_eq!(path, vec![PathStep { point: Coord { x: 0, y: 3 }, joined: false }]);
}

#[test]
fn sample_follows_the_curve() {
    let p = linear(1., 1., 1., 0.);
    let (primary, secondary) =
        sample(AccelMode::Linear, &p, 0, fx(2.), 0, fx(3.), fx(0.5)).unwrap();
    let expected = vec![
        step(0., 1., false),
        step(0.5, 1., true),
        step(1., 1., true),
        step(1.5, 1.5, true),
        step(2., 2., true),
    ];
    assert_eq!(primary, expected);
    assert_eq!(secondary, expected);
}

#[test]
fn sample_breaks_where_the_ramp_leaves_the_range() {
    let p = linear(1., 2., 0., 0.);
    let (primary, _) = sample(AccelMode::Linear, &p, 0, fx(2.), 0, fx(3.), fx(0.5)).unwrap();
    assert_eq!(
        primary,
        vec![
            step(0., 1., false),
            step(0.5, 2., true),
            step(1., 3., true),
            step(1.5, 4., false),
            step(2., 5., false),
        ]
    );
}

#[test]
fn channels_break_independently() {
    let mut p = linear(1., 1., 0., 0.);
    p.yx_ratio = fx(2.);
    let (primary, secondary) =
        sample(AccelMode::Linear, &p, 0, fx(2.), 0, fx(3.), fx(1.)).unwrap();
    assert_eq!(primary, vec![step(0., 1., false), step(1., 2., true), step(2., 3., true)]);
    assert_eq!(secondary, vec![step(0., 2., false), step(1., 4., false), step(2., 6., false)]);
}

#[test]
fn sample_errors() {
    let p = linear(1., 1., 0., 0.);
    assert_eq!(
        sample(AccelMode::Natural, &p, 0, fx(2.), 0, fx(3.), fx(1.)),
        Err(CurveError::UnsupportedMode)
    );
    assert_eq!(
        sample(AccelMode::Synchronous, &p, 0, fx(2.), 0, fx(3.), fx(1.)),
        Err(CurveError::UnsupportedMode)
    );
    assert_eq!(
        sample(AccelMode::Linear, &p, 0, fx(2.), 0, fx(3.), 0),
        Err(CurveError::InvalidParameter)
    );
    assert_eq!(
        sample(AccelMode::Linear, &p, -1, fx(2.), 0, fx(3.), fx(1.)),
        Err(CurveError::InvalidParameter)
    );
    assert_eq!(
        sample(AccelMode::Linear, &p, fx(2.), fx(1.), 0, fx(3.), fx(1.)),
        Err(CurveError::InvalidParameter)
    );
    let zero_slope = linear(1., 0., 0., 0.);
    assert_eq!(
        sample(AccelMode::Linear, &zero_slope, 0, fx(2.), 0, fx(3.), fx(1.)),
        Err(CurveError::InvalidParameter)
    );
}

#[test]
fn grid_positions() {
    let tens: Vec<i64> = (1..=8).map(|u| u * fx(10.)).collect();
    assert_eq!(grid_ticks(fx(10.), fx(80.)), tens);
    let halves: Vec<i64> = (1..=6).map(|u| u * fx(0.5)).collect();
    assert_eq!(grid_ticks(fx(0.5), fx(3.)), halves);
    assert_eq!(grid_ticks(fx(10.), fx(85.)), tens);
    assert_eq!(grid_ticks(fx(10.), fx(9.)), vec![]);
    assert_eq!(grid_ticks(0, fx(9.)), vec![]);
    assert_eq!(grid_ticks(-5, fx(9.)), vec![]);
    assert_eq!(grid_ticks(3, 3), vec![3]);
}

#[test]
fn labels_are_clipped_sorted_and_unique() {
    let ticks = vec![10, 20, 30, 40];
    let extra = vec![25, 20, -1, 0, 41, 40, 5, 25];
    assert_eq!(aggregate(&ticks, &extra, 40), vec![0, 5, 10, 20, 25, 30, 40]);
    assert_eq!(aggregate(&ticks, &extra, 39), vec![0, 5, 10, 20, 25, 30]);
    assert_eq!(aggregate(&Vec::new(), &Vec::new(), 40), vec![]);
    assert_eq!(aggregate(&ticks, &extra, -1), vec![]);
    assert_eq!(aggregate(&vec![3, 1, 2, 1, 3], &vec![2], 10), vec![1, 2, 3]);
}

#[test]
fn insert_keeps_labels_ascending() {
    let mut found = vec![10, 20, 30];
    insert_label(&mut found, 20);
    assert_eq!(found, vec![10, 20, 30]);
    insert_label(&mut found, 25);
    assert_eq!(found, vec![10, 20, 25, 30]);
    insert_label(&mut found, 5);
    assert_eq!(found, vec![5, 10, 20, 25, 30]);
    insert_label(&mut found, 35);
    assert_eq!(found, vec![5, 10, 20, 25, 30, 35]);
}

#[test]
fn controls_project_onto_axes() {
    let controls = vec![
        Control::Point(1, 2),
        Control::Angle(3, 4, 5),
        Control::NormX(6),
        Control::NormY(7),
    ];
    assert_eq!(projections(&controls, Axis::X), vec![1, 3, 6, 0]);
    assert_eq!(projections(&controls, Axis::Y), vec![2, 4, 0, 7]);
    assert_eq!(labels(&vec![2, 4], &controls, Axis::X, 5), vec![0, 1, 2, 3, 4]);
    assert_eq!(labels(&vec![2, 4], &controls, Axis::Y, 5), vec![0, 2, 4]);
}

#[test]
fn axis_labels_hold_the_vertices() {
    let graph = Graph::new(AccelMode::Linear, linear(1., 1., 10., 3.));
    let xs: Vec<i64> = [10., 12., 20., 30., 40., 50., 60., 70., 80.].iter().map(|v| fx(*v)).collect();
    let ys: Vec<i64> = [0.5, 1., 1.5, 2., 2.5, 3.].iter().map(|v| fx(*v)).collect();
    assert_eq!(graph.axis_labels(Axis::X), Ok(xs));
    assert_eq!(graph.axis_labels(Axis::Y), Ok(ys));
    let off_grid = Graph::new(AccelMode::Linear, linear(1.25, 1., 0., 0.));
    let ys: Vec<i64> = [0.5, 1., 1.25, 1.5, 2., 2.5, 3.].iter().map(|v| fx(*v)).collect();
    let xs: Vec<i64> = [0., 10., 20., 30., 40., 50., 60., 70., 80.].iter().map(|v| fx(*v)).collect();
    assert_eq!(off_grid.axis_labels(Axis::Y), Ok(ys));
    assert_eq!(off_grid.axis_labels(Axis::X), Ok(xs));
}

#[test]
fn axis_labels_without_controls() {
    let graph = Graph::new(AccelMode::Synchronous, linear(1., 1., 10., 3.));
    let xs: Vec<i64> = (1..=8).map(|u| u * fx(10.)).collect();
    assert_eq!(graph.axis_labels(Axis::X), Ok(xs));
    let bad = Graph::new(AccelMode::Linear, linear(1., 0., 10., 3.));
    assert_eq!(bad.axis_labels(Axis::X), Err(CurveError::InvalidParameter));
}

#[test]
fn graph_area_leaves_the_margins() {
    let area = Graph::graph_area(Size { width: fx(800.), height: fx(600.) });
    assert_eq!(
        area,
        Rectangle { x: fx(40.), y: fx(560.), width: fx(740.), height: fx(-540.) }
    );
    assert_eq!(Graph::axis_bounds(), Size { width: fx(80.), height: fx(3.) });
    assert_eq!((AXIS_WIDTH, AXIS_HEIGHT, STEP_SZ), (fx(80.), fx(3.), fx(0.25)));
}

#[test]
fn build_plots_walks_the_bounds() {
    let graph = Graph::new(AccelMode::Linear, linear(1., 1., 0., 0.));
    let bounds = Rectangle { x: 0, y: 0, width: fx(0.6), height: fx(1.4) };
    let (primary, _) = graph.build_plots(bounds).unwrap();
    assert_eq!(
        primary,
        vec![
            step(0., 1., false),
            step(0.25, 1.25, true),
            step(0.5, 1.5, false),
            PathStep { point: Coord { x: fx(0.6), y: ONE + fx(0.6) }, joined: false },
        ]
    );
    let whole = Rectangle { x: 0, y: 0, width: AXIS_WIDTH, height: AXIS_HEIGHT };
    assert_eq!(graph.build_plots(whole).unwrap().0.len(), 321);
    let huge = Rectangle { x: 0, y: 0, width: LIMIT + 1, height: AXIS_HEIGHT };
    assert_eq!(graph.build_plots(huge), Err(CurveError::InvalidParameter));
    let natural = Graph::new(AccelMode::Natural, linear(1., 1., 0., 0.));
    assert_eq!(natural.build_plots(whole), Err(CurveError::UnsupportedMode));
}

#[test]
fn speedo_closes_the_region() {
    let graph = Graph::new(AccelMode::Linear, linear(1., 1., 0., 0.));
    let (primary, secondary) = graph.speedo(fx(0.5)).unwrap();
    let expected = vec![
        step(0., 1., false),
        step(0.25, 1.25, true),
        step(0.5, 1.5, true),
        step(0.5, 0., true),
        step(0., 0., true),
    ];
    assert_eq!(primary, expected);
    assert_eq!(secondary, expected);
}

#[test]
fn speedo_clamps_the_speed() {
    let graph = Graph::new(AccelMode::Linear, linear(1., 1., 0., 0.));
    let (below, _) = graph.speedo(fx(-4.)).unwrap();
    assert_eq!(below, vec![step(0., 1., false), step(0., 0., true), step(0., 0., true)]);
    let (above, _) = graph.speedo(fx(500.)).unwrap();
    assert_eq!(above.len(), 323);
    assert_eq!(above[320].point.x, fx(80.));
    assert_eq!(above[321], step(80., 0., true));
    assert_eq!(above[322], step(0., 0., true));
}

#[test]
fn draw_puts_the_frame_together() {
    let graph = Graph::new(AccelMode::Linear, linear(1., 1., 10., 3.));
    let drawing = graph.draw(fx(20.)).unwrap();
    assert_eq!(drawing.h_plot.len(), 321);
    assert_eq!(drawing.v_plot, drawing.h_plot);
    assert_eq!(drawing.h_speedo.len(), 83);
    assert_eq!(drawing.h_plot[48], step(12., 3., true));
    assert_eq!(drawing.h_plot[44], step(11., 2., true));
    assert!(drawing.h_plot.iter().skip(1).all(|s| s.joined));
    assert_eq!(drawing.x_labels, graph.axis_labels(Axis::X).unwrap());
    assert_eq!(drawing.y_labels, graph.axis_labels(Axis::Y).unwrap());
    assert_eq!(drawing.x_labels[1], fx(12.));
    let unsupported = Graph::new(AccelMode::Synchronous, linear(1., 1., 10., 3.));
    assert_eq!(unsupported.draw(fx(20.)).err(), Some(CurveError::UnsupportedMode));
    let invalid = Graph::new(AccelMode::Linear, linear(1., 0., 10., 3.));
    assert_eq!(invalid.draw(fx(20.)).err(), Some(CurveError::InvalidParameter));
}

#[test]
fn move_range_shrinks_toward_the_ends() {
    assert_eq!(diff_range(0), (0, fx(5.)));
    assert_eq!(diff_range(fx(80.)), (fx(-5.), 0));
    assert_eq!(diff_range(fx(16.)), (fx(-1.), fx(4.)));
    assert_eq!(moved(fx(16.), fx(4.)), fx(20.));
    assert_eq!(moved(fx(16.), fx(-1.)), fx(15.));
}

#[test]
fn walk_stays_on_the_axis_and_moves() {
    let mut walk = InputSpeed::new();
    assert_eq!(walk.current(), 0);
    let first = read_input_speed(&mut walk);
    assert!(0 <= first && first <= fx(5.));
    let mut last = first;
    let mut changed = false;
    for _ in 0..2000 {
        let (begin, end) = diff_range(last);
        let next = read_input_speed(&mut walk);
        assert!(0 <= next && next <= AXIS_WIDTH);
        assert!(last + begin <= next && next <= last + end);
        assert_eq!(walk.current(), next);
        changed = changed || next != last;
        last = next;
    }
    assert!(changed);
}

#[test]
fn default_gui_is_a_marker() {
    assert_eq!(DefaultGui::default(), DefaultGui);
}

#[test]
fn labels_stand_beside_their_axis() {
    let axes = Graph::axis_bounds();
    let area = Graph::graph_area(Size { width: fx(800.), height: fx(600.) });
    let theme = GraphTheme::new(axes, area);
    assert_eq!(theme.x_label_position(fx(10.)), Coord { x: fx(132.5), y: fx(570.) });
    assert_eq!(theme.x_label_position(0), Coord { x: fx(40.), y: fx(570.) });
    assert_eq!(theme.x_label_position(fx(80.)), Coord { x: fx(780.), y: fx(570.) });
    assert_eq!(theme.y_label_position(fx(1.5)), Coord { x: fx(30.), y: fx(290.) });
    assert_eq!(theme.y_label_position(fx(3.)), Coord { x: fx(30.), y: fx(20.) });
    assert_eq!(span_share(fx(1.), fx(1.), fx(3.)), 21845);
    assert_eq!(span_share(fx(-1.), fx(1.), fx(3.)), -21845);
}

#[test]
fn segments_split_at_each_break() {
    let points: Vec<Coord> = [1, 2, 9, 3, -1, -2, 0, 5]
        .iter()
        .enumerate()
        .map(|(x, y)| Coord { x: x as i64, y: *y })
        .collect();
    let found = segments(&trace(&points, 0, 5));
    let ys: Vec<Vec<i64>> = found.iter().map(|s| s.iter().map(|p| p.y).collect()).collect();
    assert_eq!(ys, vec![vec![1, 2], vec![9, 3], vec![-1], vec![-2, 0, 5]]);
    let xs: Vec<i64> = found.iter().flatten().map(|p| p.x).collect();
    assert_eq!(xs, vec![0, 1, 2, 3, 4, 5, 6, 7]);
    assert_eq!(segments(&Vec::new()), Vec::<Vec<Coord>>::new());
    let joined_first = vec![PathStep { point: Coord { x: 0, y: 0 }, joined: true }];
    assert_eq!(segments(&joined_first), vec![vec![Coord { x: 0, y: 0 }]]);
}

#[test]
fn a_ramp_within_range_is_one_segment() {
    let p = linear(1., 1., 10., 3.);
    let (primary, _) = sample(AccelMode::Linear, &p, 0, fx(80.), 0, fx(3.), fx(0.25)).unwrap();
    let found = segments(&primary);
    assert_eq!(found.len(), 1);
    assert_eq!(found[0].len(), 321);
    let steep = linear(1., 1., 10., 0.);
    let (primary, _) = sample(AccelMode::Linear, &steep, 0, fx(80.), 0, fx(3.), fx(0.25)).unwrap();
    let found = segments(&primary);
    assert_eq!(found[0].len(), 49);
    assert_eq!(found.len(), 1 + (321 - 49));
    assert!(found.iter().skip(1).all(|s| s.len() == 1));
}

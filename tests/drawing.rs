use gpx_to_svg::bounds::{compute_bounds, BoundingBox, GeoPoint, Gpx, Track, TrackSegment};
use gpx_to_svg::canvas::{mid, project, CanvasPoint, Ratio};
use gpx_to_svg::path::{
    add_segment_to_data, add_segment_to_data_quadratic, generate_path, CurveStrategy, PathCommand,
};
use gpx_to_svg::render::{gpx_to_path, gpx_to_svg, Color, LineCap, LineJoin, PathStyle};

fn segment(pts: &[(i64, i64)]) -> TrackSegment {
    TrackSegment { points: pts.iter().map(|&(lon, lat)| GeoPoint { lon, lat }).collect() }
}

fn equals(r: Ratio, n: u128) -> bool {
    r.den > 0 && r.num == n * r.den
}

fn at(c: CanvasPoint, x: u128, y: u128) -> bool {
    equals(c.x, x) && equals(c.y, y)
}

fn points(cmd: &PathCommand) -> Vec<CanvasPoint> {
    match cmd {
        PathCommand::MoveTo(c) => vec![*c],
        PathCommand::LineTo(c) => vec![*c],
        PathCommand::QuadraticCurveTo { control, end } => vec![*control, *end],
    }
}

fn on_canvas(c: CanvasPoint, width: u32, height: u32) -> bool {
    c.x.den > 0
        && c.y.den > 0
        && c.x.num <= width as u128 * c.x.den
        && c.y.num <= height as u128 * c.y.den
}

fn corner() -> TrackSegment {
    segment(&[(0, 0), (10, 0), (10, 10)])
}

#[test]
fn corner_bounds() {
    let b = compute_bounds(&corner()).unwrap();
    assert_eq!(b, BoundingBox { min_lat: 0, min_lon: 0, max_lat: 10, max_lon: 10 });
}

#[test]
fn corner_projections() {
    let b = compute_bounds(&corner()).unwrap();
    let pts = corner().points;
    assert!(at(project(pts[0], b, 100, 100), 0, 100));
    assert!(at(project(pts[1], b, 100, 100), 100, 100));
    assert!(at(project(pts[2], b, 100, 100), 100, 0));
}

#[test]
fn corner_linear() {
    let cmds = generate_path(&corner(), 100, 100, CurveStrategy::Linear);
    assert_eq!(cmds.len(), 3);
    assert!(matches!(cmds[0], PathCommand::MoveTo(c) if at(c, 0, 100)));
    assert!(matches!(cmds[1], PathCommand::LineTo(c) if at(c, 100, 100)));
    assert!(matches!(cmds[2], PathCommand::LineTo(c) if at(c, 100, 0)));
}

#[test]
fn corner_quadratic() {
    let cmds = generate_path(&corner(), 100, 100, CurveStrategy::Quadratic);
    assert_eq!(cmds.len(), 2);
    assert!(matches!(cmds[0], PathCommand::MoveTo(c) if at(c, 0, 100)));
    match cmds[1] {
        PathCommand::QuadraticCurveTo { control, end } => {
            assert!(at(control, 100, 100));
            assert!(at(end, 100, 50));
        }
        _ => panic!("expected a curve"),
    }
}

#[test]
fn empty_segment_draws_nothing() {
    let s = segment(&[]);
    assert!(compute_bounds(&s).is_none());
    assert!(generate_path(&s, 100, 100, CurveStrategy::Linear).is_empty());
    assert!(generate_path(&s, 7, 3, CurveStrategy::Quadratic).is_empty());
}

#[test]
fn bounds_are_attained() {
    let s = segment(&[(5, -3), (-2, 8), (7, 1), (0, 0)]);
    let b = compute_bounds(&s).unwrap();
    assert_eq!(b, BoundingBox { min_lat: -3, min_lon: -2, max_lat: 8, max_lon: 7 });
    assert!(b.min_lat <= b.max_lat && b.min_lon <= b.max_lon);
}

#[test]
fn single_point_is_centred() {
    let s = segment(&[(42, -17)]);
    for strategy in [CurveStrategy::Linear, CurveStrategy::Quadratic] {
        let cmds = generate_path(&s, 80, 60, strategy);
        assert_eq!(cmds.len(), 1);
        assert!(matches!(cmds[0], PathCommand::MoveTo(c) if at(c, 40, 30)));
    }
}

#[test]
fn one_latitude_stays_finite() {
    let s = segment(&[(0, 5), (4, 5), (10, 5)]);
    let cmds = generate_path(&s, 100, 40, CurveStrategy::Linear);
    assert_eq!(cmds.len(), 3);
    for cmd in &cmds {
        for c in points(cmd) {
            assert!(on_canvas(c, 100, 40));
            assert!(equals(c.y, 20));
        }
    }
    assert!(matches!(cmds[1], PathCommand::LineTo(c) if c.x.num * 10 == 400 * c.x.den));
    let curved = generate_path(&s, 100, 40, CurveStrategy::Quadratic);
    for cmd in &curved {
        for c in points(cmd) {
            assert!(on_canvas(c, 100, 40));
        }
    }
}

#[test]
fn projections_stay_on_canvas() {
    let s = segment(&[(3, 9), (-7, 2), (11, -4), (0, 0), (5, 5)]);
    for strategy in [CurveStrategy::Linear, CurveStrategy::Quadratic] {
        for cmd in &generate_path(&s, 640, 480, strategy) {
            for c in points(cmd) {
                assert!(on_canvas(c, 640, 480));
            }
        }
    }
}

#[test]
fn curves_end_at_midpoints() {
    let s = segment(&[(0, 0), (3, 7), (8, 1), (9, 9)]);
    let b = compute_bounds(&s).unwrap();
    let proj: Vec<CanvasPoint> = s.points.iter().map(|&p| project(p, b, 90, 70)).collect();
    let cmds = generate_path(&s, 90, 70, CurveStrategy::Quadratic);
    assert_eq!(cmds.len(), 3);
    for i in 2..proj.len() {
        match cmds[i - 1] {
            PathCommand::QuadraticCurveTo { control, end } => {
                assert_eq!(control, proj[i - 1]);
                let (a, c) = (proj[i - 1], proj[i]);
                assert_eq!(end.x.num * 2 * a.x.den, (a.x.num + c.x.num) * end.x.den);
                assert_eq!(end.y.num * 2 * a.y.den, (a.y.num + c.y.num) * end.y.den);
            }
            _ => panic!("expected a curve"),
        }
    }
}

#[test]
fn midpoint_of_two_points() {
    let a = CanvasPoint { x: Ratio { num: 3, den: 4 }, y: Ratio { num: 10, den: 5 } };
    let b = CanvasPoint { x: Ratio { num: 5, den: 4 }, y: Ratio { num: 0, den: 5 } };
    let m = mid(a, b);
    assert_eq!(m, CanvasPoint { x: Ratio { num: 8, den: 8 }, y: Ratio { num: 10, den: 10 } });
}

#[test]
fn generation_is_repeatable() {
    let s = segment(&[(1, 2), (5, -4), (9, 9), (2, 3)]);
    for strategy in [CurveStrategy::Linear, CurveStrategy::Quadratic] {
        assert_eq!(generate_path(&s, 300, 200, strategy), generate_path(&s, 300, 200, strategy));
    }
}

#[test]
fn extreme_coordinates_do_not_overflow() {
    let s = segment(&[(i64::MIN, i64::MAX), (i64::MAX, i64::MIN), (0, 0)]);
    let cmds = generate_path(&s, u32::MAX, u32::MAX, CurveStrategy::Quadratic);
    assert_eq!(cmds.len(), 2);
    for cmd in &cmds {
        for c in points(cmd) {
            assert!(on_canvas(c, u32::MAX, u32::MAX));
        }
    }
    assert!(matches!(cmds[0], PathCommand::MoveTo(c) if at(c, 0, 0)));
}

#[test]
fn appending_keeps_earlier_commands() {
    let mut data = generate_path(&corner(), 100, 100, CurveStrategy::Linear);
    add_segment_to_data(&mut data, &corner(), 100, 100);
    assert_eq!(data.len(), 6);
    assert_eq!(data[0..3], data[3..6]);
    let mut curved = Vec::new();
    add_segment_to_data_quadratic(&mut curved, &corner(), 100, 100);
    assert_eq!(curved, generate_path(&corner(), 100, 100, CurveStrategy::Quadratic));
}

#[test]
fn default_strategy_is_quadratic() {
    assert_eq!(CurveStrategy::default(), CurveStrategy::Quadratic);
}

#[test]
fn track_style_is_fixed() {
    let style = PathStyle::track();
    assert_eq!(style.fill, None);
    assert_eq!(style.stroke, Color { red: 255, green: 0, blue: 0 });
    assert_eq!(style.stroke_width, 10);
    assert_eq!(style.line_cap, LineCap::Round);
    assert_eq!(style.line_join, LineJoin::Round);
}

#[test]
fn only_first_track_is_drawn() {
    let gpx = Gpx {
        tracks: vec![
            Track { segments: vec![corner()] },
            Track { segments: vec![segment(&[(0, 0), (1, 1), (2, 0), (3, 1)])] },
        ],
    };
    let r = gpx_to_path(&gpx, 100, 100, CurveStrategy::Linear);
    assert_eq!(r.commands, generate_path(&corner(), 100, 100, CurveStrategy::Linear));
    assert_eq!((r.width, r.height), (100, 100));
}

#[test]
fn segments_are_bounded_apart() {
    let small = segment(&[(0, 0), (1, 1)]);
    let large = segment(&[(0, 0), (1000, 1000)]);
    let gpx = Gpx { tracks: vec![Track { segments: vec![small, large] }] };
    let r = gpx_to_path(&gpx, 50, 50, CurveStrategy::Linear);
    assert_eq!(r.commands.len(), 4);
    assert!(matches!(r.commands[1], PathCommand::LineTo(c) if at(c, 50, 0)));
    assert!(matches!(r.commands[2], PathCommand::MoveTo(c) if at(c, 0, 50)));
    assert!(matches!(r.commands[3], PathCommand::LineTo(c) if at(c, 50, 0)));
}

#[test]
fn no_track_gives_empty_path() {
    let r = gpx_to_svg(Gpx { tracks: vec![] }, 800, 800);
    assert!(r.commands.is_empty());
    assert_eq!(r.style, PathStyle::track());
    let r = gpx_to_svg(Gpx { tracks: vec![Track { segments: vec![] }] }, 800, 600);
    assert!(r.commands.is_empty());
    assert_eq!((r.width, r.height), (800, 600));
}

#[test]
fn gpx_to_svg_smooths() {
    let gpx = Gpx { tracks: vec![Track { segments: vec![corner()] }] };
    let r = gpx_to_svg(gpx, 100, 100);
    assert_eq!(r.commands, generate_path(&corner(), 100, 100, CurveStrategy::Quadratic));
}

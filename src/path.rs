//! Path commands and the two ways of drawing a segment with them.
use vstd::prelude::*;
use crate::bounds::{
    GeoPoint, TrackSegment, bounding_box_exists, bounds_of, bounds_of_exists, compute_bounds,
    contains_all,
};
use crate::canvas::{
    CanvasPoint, bounded_point, is_mean, half_sum_within, mid, midpoint, midpoint_is_exact, project, projected,
    projection, projection_facts, within,
};

verus! {

/// One drawing step of a path.
#[derive(Clone, Copy, Debug, PartialEq, Eq, Structural)]
pub enum PathCommand {
    /// Lifts the pen and puts it down at the point.
    MoveTo(CanvasPoint),
    /// A straight line to the point.
    LineTo(CanvasPoint),
    /// A quadratic curve to `end`, bent towards `control`.
    QuadraticCurveTo { control: CanvasPoint, end: CanvasPoint },
}

/// How the projected points of a segment are joined.
#[derive(Clone, Copy, Debug, PartialEq, Eq, Structural)]
pub enum CurveStrategy {
    /// Each point is the control of a curve that ends halfway to the next
    /// point: a smoothed line that does not pass through the points.
    Quadratic,
    /// A straight line to each point.
    Linear,
}

impl Default for CurveStrategy {
    /// Smoothing is the default.
    fn default() -> (r: CurveStrategy)
        ensures
            r == CurveStrategy::Quadratic,
    {
        CurveStrategy::Quadratic
    }
}

/// A move to the first point, then a line to each of the others.
pub open spec fn linear_commands(c: Seq<CanvasPoint>) -> Seq<PathCommand> {
    Seq::new(
        c.len(),
        |i: int|
            if i == 0 {
                PathCommand::MoveTo(c[0])
            } else {
                PathCommand::LineTo(c[i])
            },
    )
}

/// A move to the first point, then for each later point `c[i]` (from the
/// third on) a curve controlled by `c[i - 1]` that ends halfway between
/// `c[i - 1]` and `c[i]`. The last point itself is never reached, and a
/// single point gives the move alone.
pub open spec fn quadratic_commands(c: Seq<CanvasPoint>) -> Seq<PathCommand> {
    if c.len() == 0 {
        Seq::empty()
    } else {
        Seq::new(
            if c.len() == 1 { 1 } else { (c.len() - 1) as nat },
            |k: int|
                if k == 0 {
                    PathCommand::MoveTo(c[0])
                } else {
                    PathCommand::QuadraticCurveTo { control: c[k], end: midpoint(c[k], c[k + 1]) }
                },
        )
    }
}

/// The commands that `strategy` draws through the points `c`.
pub open spec fn strategy_commands(c: Seq<CanvasPoint>, strategy: CurveStrategy) -> Seq<
    PathCommand,
> {
    match strategy {
        CurveStrategy::Quadratic => quadratic_commands(c),
        CurveStrategy::Linear => linear_commands(c),
    }
}

/// The commands that draw the points `pts` of one segment on a `width` by
/// `height` canvas: the segment's own bounding box fills the canvas.
pub open spec fn segment_commands(
    pts: Seq<GeoPoint>,
    width: u32,
    height: u32,
    strategy: CurveStrategy,
) -> Seq<PathCommand> {
    if pts.len() == 0 {
        Seq::empty()
    } else {
        strategy_commands(projected(pts, bounds_of(pts), width, height), strategy)
    }
}

/// `c` lies on a `width` by `height` canvas, with finite coordinates.
pub open spec fn on_canvas(c: CanvasPoint, width: u32, height: u32) -> bool {
    within(c.x, width as int) && within(c.y, height as int)
}

/// Every point that `cmd` names lies on the canvas.
pub open spec fn command_on_canvas(cmd: PathCommand, width: u32, height: u32) -> bool {
    match cmd {
        PathCommand::MoveTo(c) => on_canvas(c, width, height),
        PathCommand::LineTo(c) => on_canvas(c, width, height),
        PathCommand::QuadraticCurveTo { control, end } => on_canvas(control, width, height)
            && on_canvas(end, width, height),
    }
}

proof fn projected_facts(pts: Seq<GeoPoint>, width: u32, height: u32, i: int)
    requires
        0 <= i < pts.len(),
    ensures
        projected(pts, bounds_of(pts), width, height)[i] == projection(
            pts[i],
            bounds_of(pts),
            width,
            height,
        ),
        on_canvas(projection(pts[i], bounds_of(pts), width, height), width, height),
        bounded_point(projection(pts[i], bounds_of(pts), width, height)),
{
    bounding_box_exists(pts);
    let b = bounds_of(pts);
    assert(b.min_lat <= pts[i].lat <= b.max_lat);
    projection_facts(pts[i], b, width, height);
}

/// With straight lines a segment of `n` points gives `n` commands: a move to
/// the projection of its first point, then a line to the projection of each
/// later point, in order.
pub proof fn linear_reaches_every_point(pts: Seq<GeoPoint>, width: u32, height: u32)
    requires
        pts.len() > 0,
    ensures
        segment_commands(pts, width, height, CurveStrategy::Linear).len() == pts.len(),
        segment_commands(pts, width, height, CurveStrategy::Linear)[0] == PathCommand::MoveTo(
            projection(pts[0], bounds_of(pts), width, height),
        ),
        forall|i: int|
            0 < i < pts.len() ==> #[trigger] segment_commands(
                pts,
                width,
                height,
                CurveStrategy::Linear,
            )[i] == PathCommand::LineTo(projection(pts[i], bounds_of(pts), width, height)),
{
    projected_facts(pts, width, height, 0);
    assert forall|i: int| 0 < i < pts.len() implies #[trigger] segment_commands(
        pts,
        width,
        height,
        CurveStrategy::Linear,
    )[i] == PathCommand::LineTo(projection(pts[i], bounds_of(pts), width, height)) by {
        projected_facts(pts, width, height, i);
    }
}

/// With smoothing, for each point `i` from the third on, command `i - 1` is
/// a curve whose control is the projection of point `i - 1` and whose end
/// is, exactly, the arithmetic midpoint of the projections of points `i - 1`
/// and `i`.
pub proof fn quadratic_ends_at_midpoints(pts: Seq<GeoPoint>, width: u32, height: u32, i: int)
    requires
        2 <= i < pts.len(),
    ensures
        ({
            let a = projection(pts[i - 1], bounds_of(pts), width, height);
            let b = projection(pts[i], bounds_of(pts), width, height);
            let cmd = segment_commands(pts, width, height, CurveStrategy::Quadratic)[i - 1];
            &&& cmd == PathCommand::QuadraticCurveTo { control: a, end: midpoint(a, b) }
            &&& is_mean(midpoint(a, b).x, a.x, b.x)
            &&& is_mean(midpoint(a, b).y, a.y, b.y)
        }),
{
    projected_facts(pts, width, height, i - 1);
    projected_facts(pts, width, height, i);
    let a = projection(pts[i - 1], bounds_of(pts), width, height);
    let b = projection(pts[i], bounds_of(pts), width, height);
    midpoint_is_exact(a, b);
}

/// Drawing the same points on the same canvas twice gives the same commands.
pub proof fn generation_is_repeatable(
    a: Seq<GeoPoint>,
    b: Seq<GeoPoint>,
    width: u32,
    height: u32,
    strategy: CurveStrategy,
)
    requires
        a == b,
    ensures
        segment_commands(a, width, height, strategy) == segment_commands(
            b,
            width,
            height,
            strategy,
        ),
{
}

/// Every command of every segment, a single point or a segment of one
/// latitude included, names only points on the canvas with finite
/// coordinates.
pub proof fn commands_stay_on_canvas(
    pts: Seq<GeoPoint>,
    width: u32,
    height: u32,
    strategy: CurveStrategy,
)
    ensures
        forall|k: int|
            0 <= k < segment_commands(pts, width, height, strategy).len()
                ==> command_on_canvas(
                #[trigger] segment_commands(pts, width, height, strategy)[k],
                width,
                height,
            ),
{
    let cmds = segment_commands(pts, width, height, strategy);
    assert forall|k: int| 0 <= k < cmds.len() implies command_on_canvas(
        #[trigger] cmds[k],
        width,
        height,
    ) by {
        projected_facts(pts, width, height, k);
        if strategy == CurveStrategy::Quadratic && k > 0 {
            projected_facts(pts, width, height, k + 1);
            let a = projection(pts[k], bounds_of(pts), width, height);
            let b = projection(pts[k + 1], bounds_of(pts), width, height);
            half_sum_within(a.x, b.x, width as int);
            half_sum_within(a.y, b.y, height as int);
        }
    }
}

/// Appends the segment to `data` as a move to its first point and a
/// straight line to each of the others.
pub fn add_segment_to_data(data: &mut Vec<PathCommand>, segment: &TrackSegment, width: u32, height: u32)
    ensures
        final(data)@ == old(data)@ + segment_commands(
            segment.points@,
            width,
            height,
            CurveStrategy::Linear,
        ),
{
    let ghost start = data@;
    let ghost pts = segment.points@;
    let b = match compute_bounds(segment) {
        None => {
            assert(data@ =~= start + segment_commands(pts, width, height, CurveStrategy::Linear));
            return;
        },
        Some(b) => b,
    };
    proof {
        bounds_of_exists(pts, b);
    }
    let ghost c = projected(pts, b, width, height);
    let ghost cmds = linear_commands(c);
    let n = segment.points.len();
    let mut i: usize = 0;
    while i < n
        invariant
            pts == segment.points@,
            n == pts.len(),
            c == projected(pts, b, width, height),
            cmds == linear_commands(c),
            contains_all(pts, b),
            0 <= i <= n,
            data@ == start + cmds.subrange(0, i as int),
        decreases n - i,
    {
        let p = segment.points[i];
        assert(b.min_lat <= pts[i as int].lat <= b.max_lat);
        let q = project(p, b, width, height);
        if i == 0 {
            data.push(PathCommand::MoveTo(q));
        } else {
            data.push(PathCommand::LineTo(q));
        }
        assert(cmds.subrange(0, i + 1) =~= cmds.subrange(0, i as int).push(cmds[i as int]));
        i = i + 1;
    }
    assert(cmds.subrange(0, n as int) =~= cmds);
}

/// Appends the segment to `data` as a move to its first point and a
/// smoothing curve for each point from the third on.
pub fn add_segment_to_data_quadratic(
    data: &mut Vec<PathCommand>,
    segment: &TrackSegment,
    width: u32,
    height: u32,
)
    ensures
        final(data)@ == old(data)@ + segment_commands(
            segment.points@,
            width,
            height,
            CurveStrategy::Quadratic,
        ),
{
    let ghost start = data@;
    let ghost pts = segment.points@;
    let b = match compute_bounds(segment) {
        None => {
            assert(data@ =~= start + segment_commands(pts, width, height, CurveStrategy::Quadratic));
            return;
        },
        Some(b) => b,
    };
    proof {
        bounds_of_exists(pts, b);
    }
    let ghost c = projected(pts, b, width, height);
    let n = segment.points.len();
    let mut points: Vec<CanvasPoint> = Vec::new();
    let mut j: usize = 0;
    while j < n
        invariant
            pts == segment.points@,
            n == pts.len(),
            c == projected(pts, b, width, height),
            contains_all(pts, b),
            0 <= j <= n,
            points@ == c.subrange(0, j as int),
            forall|k: int| 0 <= k < j ==> bounded_point(#[trigger] points@[k]),
        decreases n - j,
    {
        let p = segment.points[j];
        assert(b.min_lat <= pts[j as int].lat <= b.max_lat);
        proof {
            projection_facts(pts[j as int], b, width, height);
        }
        points.push(project(p, b, width, height));
        assert(points@ =~= c.subrange(0, j + 1));
        j = j + 1;
    }
    assert(points@ =~= c);
    assert(n > 0);
    assert(c.len() == n);
    let ghost cmds = quadratic_commands(c);
    data.push(PathCommand::MoveTo(points[0]));
    assert(cmds.subrange(0, 1) =~= seq![cmds[0]]);
    assert(data@ =~= start + cmds.subrange(0, 1));
    let mut i: usize = 1;
    while i + 1 < n
        invariant
            points@ == c,
            n == c.len(),
            n >= 1,
            cmds == quadratic_commands(c),
            1 <= i,
            i == 1 || i <= n - 1,
            forall|k: int| 0 <= k < n ==> bounded_point(#[trigger] points@[k]),
            data@ == start + cmds.subrange(0, i as int),
        decreases n - i,
    {
        let m = mid(points[i], points[i + 1]);
        data.push(PathCommand::QuadraticCurveTo { control: points[i], end: m });
        assert(cmds.subrange(0, i + 1) =~= cmds.subrange(0, i as int).push(cmds[i as int]));
        i = i + 1;
    }
    assert(cmds.subrange(0, i as int) =~= cmds);
}

/// The commands that draw one segment with the given strategy.
pub fn generate_path(segment: &TrackSegment, width: u32, height: u32, strategy: CurveStrategy) -> (r:
    Vec<PathCommand>)
    ensures
        r@ == segment_commands(segment.points@, width, height, strategy),
{
    let mut data: Vec<PathCommand> = Vec::new();
    match strategy {
        CurveStrategy::Quadratic => add_segment_to_data_quadratic(&mut data, segment, width, height),
        CurveStrategy::Linear => add_segment_to_data(&mut data, segment, width, height),
    }
    assert(data@ =~= segment_commands(segment.points@, width, height, strategy));
    data
}

} // verus!

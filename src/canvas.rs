//! Canvas space and the projection of geographic points onto it.
//!
//! Canvas coordinates are exact fractions, so that the projection and the
//! midpoints of the smoothing curves carry no rounding.
use vstd::prelude::*;
use crate::bounds::{BoundingBox, GeoPoint, contains_all, is_bounding_box};

verus! {

/// The exact fraction `num / den` of a pixel.
#[derive(Clone, Copy, Debug, PartialEq, Eq, Structural)]
pub struct Ratio {
    pub num: u128,
    pub den: u128,
}

/// A point on the canvas: origin top left, `y` growing downward.
#[derive(Clone, Copy, Debug, PartialEq, Eq, Structural)]
pub struct CanvasPoint {
    pub x: Ratio,
    pub y: Ratio,
}

/// The largest distance between two `i64` values.
pub const MAX_SPAN: u128 = 0xffff_ffff_ffff_ffff;

/// The largest canvas extent.
pub const MAX_EXTENT: u128 = 0xffff_ffff;

/// `r` is a finite value between zero and `extent`.
pub open spec fn within(r: Ratio, extent: int) -> bool {
    &&& r.den > 0
    &&& r.num <= extent * r.den
}

/// `m` is, as a number, the arithmetic mean of `a` and `b`.
pub open spec fn is_mean(m: Ratio, a: Ratio, b: Ratio) -> bool {
    m.num * (2 * a.den * b.den) == (a.num * b.den + b.num * a.den) * m.den
}

/// The place of `offset` within `span`, scaled to `extent`. A span of zero
/// leaves the position undefined: the point is then put in the middle.
pub open spec fn scale(offset: int, span: int, extent: int) -> Ratio {
    if span == 0 {
        Ratio { num: extent as u128, den: 2 }
    } else {
        Ratio { num: (offset * extent) as u128, den: span as u128 }
    }
}

/// Where `p` lands on a `width` by `height` canvas that the box `b` fills:
/// west to the left, north to the top.
pub open spec fn projection(p: GeoPoint, b: BoundingBox, width: u32, height: u32) -> CanvasPoint {
    CanvasPoint {
        x: scale(p.lon - b.min_lon, b.max_lon - b.min_lon, width as int),
        y: scale(b.max_lat - p.lat, b.max_lat - b.min_lat, height as int),
    }
}

/// The projections of `pts`, in order.
pub open spec fn projected(pts: Seq<GeoPoint>, b: BoundingBox, width: u32, height: u32) -> Seq<
    CanvasPoint,
> {
    pts.map_values(|p: GeoPoint| projection(p, b, width, height))
}

/// The fraction halfway between two fractions over one denominator.
pub open spec fn half_sum(a: Ratio, b: Ratio) -> Ratio {
    Ratio { num: (a.num + b.num) as u128, den: (2 * a.den) as u128 }
}

/// The point halfway between two projections of one segment.
pub open spec fn midpoint(a: CanvasPoint, b: CanvasPoint) -> CanvasPoint {
    CanvasPoint { x: half_sum(a.x, b.x), y: half_sum(a.y, b.y) }
}

/// A value that a projection can produce: finite, with room to add two of
/// them and to double the denominator.
pub open spec fn bounded(r: Ratio) -> bool {
    &&& 0 < r.den <= MAX_SPAN
    &&& r.num <= MAX_SPAN * MAX_EXTENT
}

/// Both coordinates of `c` are bounded.
pub open spec fn bounded_point(c: CanvasPoint) -> bool {
    bounded(c.x) && bounded(c.y)
}

proof fn scale_facts(offset: int, span: int, extent: int)
    requires
        0 <= offset <= span <= MAX_SPAN,
        0 <= extent <= MAX_EXTENT,
    ensures
        within(scale(offset, span, extent), extent),
        bounded(scale(offset, span, extent)),
        span > 0 ==> scale(offset, span, extent).num == offset * extent,
{
    if span > 0 {
        assert(0 <= offset * extent <= extent * span) by (nonlinear_arith)
            requires
                0 <= offset <= span,
                0 <= extent,
        ;
        assert(span * extent <= MAX_SPAN * MAX_EXTENT) by (nonlinear_arith)
            requires
                0 <= span <= MAX_SPAN,
                0 <= extent <= MAX_EXTENT,
        ;
    }
}

/// Each point inside a box projects inside the canvas, with bounded
/// coordinates.
pub proof fn projection_facts(p: GeoPoint, b: BoundingBox, width: u32, height: u32)
    requires
        b.min_lat <= p.lat <= b.max_lat,
        b.min_lon <= p.lon <= b.max_lon,
    ensures
        within(projection(p, b, width, height).x, width as int),
        within(projection(p, b, width, height).y, height as int),
        bounded_point(projection(p, b, width, height)),
{
    scale_facts(p.lon - b.min_lon, b.max_lon - b.min_lon, width as int);
    scale_facts(b.max_lat - p.lat, b.max_lat - b.min_lat, height as int);
}

/// Every point of a segment projects into the canvas:
/// `0 <= x <= width` and `0 <= y <= height`, never an infinite value.
pub proof fn projection_in_canvas(
    pts: Seq<GeoPoint>,
    b: BoundingBox,
    width: u32,
    height: u32,
    i: int,
)
    requires
        is_bounding_box(pts, b),
        0 <= i < pts.len(),
    ensures
        within(projected(pts, b, width, height)[i].x, width as int),
        within(projected(pts, b, width, height)[i].y, height as int),
{
    assert(contains_all(pts, b));
    assert(b.min_lat <= pts[i].lat <= b.max_lat);
    projection_facts(pts[i], b, width, height);
}

/// The midpoint of two projections that share their denominators is, as a
/// number, exactly their arithmetic mean, on each axis.
pub proof fn midpoint_is_exact(a: CanvasPoint, b: CanvasPoint)
    requires
        bounded_point(a),
        bounded_point(b),
        a.x.den == b.x.den,
        a.y.den == b.y.den,
    ensures
        is_mean(midpoint(a, b).x, a.x, b.x),
        is_mean(midpoint(a, b).y, a.y, b.y),
        midpoint(a, b).x.den > 0,
        midpoint(a, b).y.den > 0,
{
    half_sum_is_mean(a.x, b.x);
    half_sum_is_mean(a.y, b.y);
}

/// Halfway between two values of `[0, extent]` is a value of it too.
pub proof fn half_sum_within(a: Ratio, b: Ratio, extent: int)
    requires
        bounded(a),
        bounded(b),
        a.den == b.den,
        within(a, extent),
        within(b, extent),
    ensures
        within(half_sum(a, b), extent),
{
    let d = a.den as int;
    assert(extent * (2 * d) == 2 * (extent * d)) by (nonlinear_arith);
}

proof fn half_sum_is_mean(a: Ratio, b: Ratio)
    requires
        bounded(a),
        bounded(b),
        a.den == b.den,
    ensures
        is_mean(half_sum(a, b), a, b),
        half_sum(a, b).num == a.num + b.num,
        half_sum(a, b).den == 2 * a.den,
{
    let d = a.den as int;
    let x = a.num as int;
    let y = b.num as int;
    assert((x + y) * (2 * d * d) == (x * d + y * d) * (2 * d)) by (nonlinear_arith);
}

/// Projects one point of the box `b` onto the canvas.
pub fn project(p: GeoPoint, b: BoundingBox, width: u32, height: u32) -> (r: CanvasPoint)
    requires
        b.min_lat <= p.lat <= b.max_lat,
        b.min_lon <= p.lon <= b.max_lon,
    ensures
        r == projection(p, b, width, height),
{
    proof {
        projection_facts(p, b, width, height);
        scale_facts(p.lon - b.min_lon, b.max_lon - b.min_lon, width as int);
        scale_facts(b.max_lat - p.lat, b.max_lat - b.min_lat, height as int);
    }
    let x = scale_exec(
        (p.lon as i128 - b.min_lon as i128) as u128,
        (b.max_lon as i128 - b.min_lon as i128) as u128,
        width,
    );
    let y = scale_exec(
        (b.max_lat as i128 - p.lat as i128) as u128,
        (b.max_lat as i128 - b.min_lat as i128) as u128,
        height,
    );
    CanvasPoint { x, y }
}

fn scale_exec(offset: u128, span: u128, extent: u32) -> (r: Ratio)
    requires
        offset <= span <= MAX_SPAN,
    ensures
        r == scale(offset as int, span as int, extent as int),
{
    if span == 0 {
        Ratio { num: extent as u128, den: 2 }
    } else {
        proof {
            scale_facts(offset as int, span as int, extent as int);
        }
        Ratio { num: offset * extent as u128, den: span }
    }
}

/// The point halfway between two projections of one segment.
pub fn mid(a: CanvasPoint, b: CanvasPoint) -> (r: CanvasPoint)
    requires
        bounded_point(a),
        bounded_point(b),
    ensures
        r == midpoint(a, b),
{
    CanvasPoint {
        x: Ratio { num: a.x.num + b.x.num, den: 2 * a.x.den },
        y: Ratio { num: a.y.num + b.y.num, den: 2 * a.y.den },
    }
}

} // verus!

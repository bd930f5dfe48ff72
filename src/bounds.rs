//! Geographic input and the bounding box of a segment.
use vstd::prelude::*;

verus! {

/// A geographic sample: longitude and latitude in a fixed-point unit that
/// the caller picks (the projection does not depend on the unit).
#[derive(Clone, Copy, Debug, PartialEq, Eq, Structural)]
pub struct GeoPoint {
    pub lon: i64,
    pub lat: i64,
}

/// One continuous recording run, in recording order.
#[derive(Debug)]
pub struct TrackSegment {
    pub points: Vec<GeoPoint>,
}

/// A recorded path made of zero or more segments.
#[derive(Debug)]
pub struct Track {
    pub segments: Vec<TrackSegment>,
}

/// A parsed track file: its tracks, in file order.
#[derive(Debug)]
pub struct Gpx {
    pub tracks: Vec<Track>,
}

/// The smallest axis-aligned box that holds every point of a segment.
#[derive(Clone, Copy, Debug, PartialEq, Eq, Structural)]
pub struct BoundingBox {
    pub min_lat: i64,
    pub min_lon: i64,
    pub max_lat: i64,
    pub max_lon: i64,
}

/// Every point of `pts` lies inside `b`.
pub open spec fn contains_all(pts: Seq<GeoPoint>, b: BoundingBox) -> bool {
    forall|i: int|
        0 <= i < pts.len() ==> {
            &&& b.min_lat <= (#[trigger] pts[i]).lat <= b.max_lat
            &&& b.min_lon <= pts[i].lon <= b.max_lon
        }
}

/// `b` is the bounding box of `pts`: it holds every point, and each of its
/// four sides is reached by some point.
pub open spec fn is_bounding_box(pts: Seq<GeoPoint>, b: BoundingBox) -> bool {
    &&& contains_all(pts, b)
    &&& exists|i: int| 0 <= i < pts.len() && #[trigger] pts[i].lat == b.min_lat
    &&& exists|i: int| 0 <= i < pts.len() && #[trigger] pts[i].lat == b.max_lat
    &&& exists|i: int| 0 <= i < pts.len() && #[trigger] pts[i].lon == b.min_lon
    &&& exists|i: int| 0 <= i < pts.len() && #[trigger] pts[i].lon == b.max_lon
}

/// The bounding box of a non-empty sequence of points.
pub open spec fn bounds_of(pts: Seq<GeoPoint>) -> BoundingBox
    recommends
        pts.len() > 0,
{
    choose|b: BoundingBox| is_bounding_box(pts, b)
}

/// The box that holds a single point.
pub open spec fn point_box(p: GeoPoint) -> BoundingBox {
    BoundingBox { min_lat: p.lat, min_lon: p.lon, max_lat: p.lat, max_lon: p.lon }
}

/// A sequence of points has at most one bounding box.
pub proof fn bounding_box_unique(pts: Seq<GeoPoint>, a: BoundingBox, b: BoundingBox)
    requires
        is_bounding_box(pts, a),
        is_bounding_box(pts, b),
    ensures
        a == b,
{
    let i = choose|i: int| 0 <= i < pts.len() && #[trigger] pts[i].lat == a.min_lat;
    let j = choose|j: int| 0 <= j < pts.len() && #[trigger] pts[j].lat == b.min_lat;
    assert(a.min_lat == b.min_lat) by {
        assert(a.min_lat <= pts[j].lat);
        assert(b.min_lat <= pts[i].lat);
    }
    let i = choose|i: int| 0 <= i < pts.len() && #[trigger] pts[i].lat == a.max_lat;
    let j = choose|j: int| 0 <= j < pts.len() && #[trigger] pts[j].lat == b.max_lat;
    assert(a.max_lat == b.max_lat) by {
        assert(pts[j].lat <= a.max_lat);
        assert(pts[i].lat <= b.max_lat);
    }
    let i = choose|i: int| 0 <= i < pts.len() && #[trigger] pts[i].lon == a.min_lon;
    let j = choose|j: int| 0 <= j < pts.len() && #[trigger] pts[j].lon == b.min_lon;
    assert(a.min_lon == b.min_lon) by {
        assert(a.min_lon <= pts[j].lon);
        assert(b.min_lon <= pts[i].lon);
    }
    let i = choose|i: int| 0 <= i < pts.len() && #[trigger] pts[i].lon == a.max_lon;
    let j = choose|j: int| 0 <= j < pts.len() && #[trigger] pts[j].lon == b.max_lon;
    assert(a.max_lon == b.max_lon) by {
        assert(pts[j].lon <= a.max_lon);
        assert(pts[i].lon <= b.max_lon);
    }
}

/// A non-empty sequence of points has a bounding box, and `bounds_of` is it.
pub proof fn bounds_of_exists(pts: Seq<GeoPoint>, b: BoundingBox)
    requires
        is_bounding_box(pts, b),
    ensures
        bounds_of(pts) == b,
{
    bounding_box_unique(pts, bounds_of(pts), b);
}

/// Every non-empty sequence of points has a bounding box.
pub proof fn bounding_box_exists(pts: Seq<GeoPoint>)
    requires
        pts.len() > 0,
    ensures
        is_bounding_box(pts, bounds_of(pts)),
    decreases pts.len(),
{
    let n = pts.len() - 1;
    let p = pts[n];
    let b = if n == 0 {
        point_box(p)
    } else {
        let init = pts.drop_last();
        bounding_box_exists(init);
        let a = bounds_of(init);
        assert(forall|i: int| 0 <= i < n ==> #[trigger] pts[i] == init[i]);
        let w1 = choose|i: int| 0 <= i < init.len() && #[trigger] init[i].lat == a.min_lat;
        let w2 = choose|i: int| 0 <= i < init.len() && #[trigger] init[i].lat == a.max_lat;
        let w3 = choose|i: int| 0 <= i < init.len() && #[trigger] init[i].lon == a.min_lon;
        let w4 = choose|i: int| 0 <= i < init.len() && #[trigger] init[i].lon == a.max_lon;
        assert(pts[w1].lat == a.min_lat && pts[w2].lat == a.max_lat);
        assert(pts[w3].lon == a.min_lon && pts[w4].lon == a.max_lon);
        BoundingBox {
            min_lat: if p.lat < a.min_lat { p.lat } else { a.min_lat },
            min_lon: if p.lon < a.min_lon { p.lon } else { a.min_lon },
            max_lat: if p.lat > a.max_lat { p.lat } else { a.max_lat },
            max_lon: if p.lon > a.max_lon { p.lon } else { a.max_lon },
        }
    };
    assert(is_bounding_box(pts, b));
    bounds_of_exists(pts, b);
}

/// The bounding box of a non-empty segment is ordered on both axes, and
/// each of its extrema is attained by a point of the segment.
pub proof fn bounds_are_ordered_and_attained(pts: Seq<GeoPoint>, b: BoundingBox)
    requires
        pts.len() > 0,
        is_bounding_box(pts, b),
    ensures
        b.min_lat <= b.max_lat,
        b.min_lon <= b.max_lon,
        exists|i: int| 0 <= i < pts.len() && #[trigger] pts[i].lat == b.min_lat,
        exists|i: int| 0 <= i < pts.len() && #[trigger] pts[i].lat == b.max_lat,
        exists|i: int| 0 <= i < pts.len() && #[trigger] pts[i].lon == b.min_lon,
        exists|i: int| 0 <= i < pts.len() && #[trigger] pts[i].lon == b.max_lon,
{
    assert(b.min_lat <= pts[0].lat <= b.max_lat);
    assert(b.min_lon <= pts[0].lon <= b.max_lon);
}

/// Scans the segment once and returns its bounding box, or `None` when the
/// segment holds no point.
pub fn compute_bounds(segment: &TrackSegment) -> (r: Option<BoundingBox>)
    ensures
        r.is_none() <==> segment.points@.len() == 0,
        r matches Some(b) ==> is_bounding_box(segment.points@, b),
{
    let n = segment.points.len();
    if n == 0 {
        return None;
    }
    let ghost pts = segment.points@;
    let first = segment.points[0];
    let mut b = point_box_of(first);
    let ghost mut w_min_lat: int = 0;
    let ghost mut w_max_lat: int = 0;
    let ghost mut w_min_lon: int = 0;
    let ghost mut w_max_lon: int = 0;
    let mut i: usize = 1;
    while i < n
        invariant
            n == pts.len(),
            pts == segment.points@,
            1 <= i <= n,
            contains_all(pts.subrange(0, i as int), b),
            0 <= w_min_lat < i && pts[w_min_lat].lat == b.min_lat,
            0 <= w_max_lat < i && pts[w_max_lat].lat == b.max_lat,
            0 <= w_min_lon < i && pts[w_min_lon].lon == b.min_lon,
            0 <= w_max_lon < i && pts[w_max_lon].lon == b.max_lon,
        decreases n - i,
    {
        let p = segment.points[i];
        if p.lat < b.min_lat {
            b.min_lat = p.lat;
            proof { w_min_lat = i as int; }
        }
        if p.lat > b.max_lat {
            b.max_lat = p.lat;
            proof { w_max_lat = i as int; }
        }
        if p.lon < b.min_lon {
            b.min_lon = p.lon;
            proof { w_min_lon = i as int; }
        }
        if p.lon > b.max_lon {
            b.max_lon = p.lon;
            proof { w_max_lon = i as int; }
        }
        assert forall|j: int| 0 <= j < i + 1 implies {
            &&& b.min_lat <= (#[trigger] pts.subrange(0, i + 1)[j]).lat <= b.max_lat
            &&& b.min_lon <= pts.subrange(0, i + 1)[j].lon <= b.max_lon
        } by {
            if j < i {
                assert(pts.subrange(0, i as int)[j] == pts[j]);
            }
        }
        i = i + 1;
    }
    assert(pts.subrange(0, n as int) =~= pts);
    assert(pts[w_min_lat].lat == b.min_lat);
    assert(pts[w_max_lat].lat == b.max_lat);
    assert(pts[w_min_lon].lon == b.min_lon);
    assert(pts[w_max_lon].lon == b.max_lon);
    Some(b)
}

fn point_box_of(p: GeoPoint) -> (r: BoundingBox)
    ensures
        r == point_box(p),
{
    BoundingBox { min_lat: p.lat, min_lon: p.lon, max_lat: p.lat, max_lon: p.lon }
}

} // verus!

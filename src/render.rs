//! The rendered path of a whole track file: canvas size, commands and the
//! fixed stroke style.
use vstd::prelude::*;
use crate::bounds::{Gpx, TrackSegment};
use crate::path::{CurveStrategy, PathCommand, generate_path, segment_commands};

verus! {

/// An opaque colour.
#[derive(Clone, Copy, Debug, PartialEq, Eq, Structural)]
pub struct Color {
    pub red: u8,
    pub green: u8,
    pub blue: u8,
}

/// The shape at the two ends of a stroke.
#[derive(Clone, Copy, Debug, PartialEq, Eq, Structural)]
pub enum LineCap {
    Butt,
    Round,
    Square,
}

/// The shape where two pieces of a stroke meet.
#[derive(Clone, Copy, Debug, PartialEq, Eq, Structural)]
pub enum LineJoin {
    Miter,
    Round,
    Bevel,
}

/// How a path is painted.
#[derive(Clone, Copy, Debug, PartialEq, Eq, Structural)]
pub struct PathStyle {
    /// The fill colour, or `None` for no fill.
    pub fill: Option<Color>,
    pub stroke: Color,
    pub stroke_width: u32,
    pub line_cap: LineCap,
    pub line_join: LineJoin,
}

/// The style of a drawn track: no fill, a red stroke ten units wide, round
/// caps and round joins.
pub open spec fn track_style() -> PathStyle {
    PathStyle {
        fill: None,
        stroke: Color { red: 255, green: 0, blue: 0 },
        stroke_width: 10,
        line_cap: LineCap::Round,
        line_join: LineJoin::Round,
    }
}

impl PathStyle {
    /// The style of a drawn track.
    pub fn track() -> (r: PathStyle)
        ensures
            r == track_style(),
    {
        PathStyle {
            fill: None,
            stroke: Color { red: 255, green: 0, blue: 0 },
            stroke_width: 10,
            line_cap: LineCap::Round,
            line_join: LineJoin::Round,
        }
    }
}

/// One styled path on a canvas of `width` by `height`, whose view box is
/// `(0, 0, width, height)`.
#[derive(Debug)]
pub struct RenderedPath {
    pub width: u32,
    pub height: u32,
    pub commands: Vec<PathCommand>,
    pub style: PathStyle,
}

/// The commands of the segments `segs`, each bounded and projected on its
/// own, one after another.
pub open spec fn track_commands(
    segs: Seq<TrackSegment>,
    width: u32,
    height: u32,
    strategy: CurveStrategy,
) -> Seq<PathCommand>
    decreases segs.len(),
{
    if segs.len() == 0 {
        Seq::empty()
    } else {
        track_commands(segs.drop_last(), width, height, strategy) + segment_commands(
            segs.last().points@,
            width,
            height,
            strategy,
        )
    }
}

/// The commands of a track file: those of its first track; none where it
/// has no track.
pub open spec fn gpx_commands(gpx: Gpx, width: u32, height: u32, strategy: CurveStrategy) -> Seq<
    PathCommand,
> {
    if gpx.tracks@.len() == 0 {
        Seq::empty()
    } else {
        track_commands(gpx.tracks@[0].segments@, width, height, strategy)
    }
}

/// Only the first track is drawn: two track files whose first tracks hold
/// the same segments give the same commands, whatever their later tracks.
pub proof fn later_tracks_are_ignored(
    a: Gpx,
    b: Gpx,
    width: u32,
    height: u32,
    strategy: CurveStrategy,
)
    requires
        a.tracks@.len() > 0,
        b.tracks@.len() > 0,
        a.tracks@[0].segments@ == b.tracks@[0].segments@,
    ensures
        gpx_commands(a, width, height, strategy) == gpx_commands(b, width, height, strategy),
{
}

/// Draws the first track of `gpx` with the given strategy; later tracks are
/// left out.
pub fn gpx_to_path(gpx: &Gpx, width: u32, height: u32, strategy: CurveStrategy) -> (r: RenderedPath)
    ensures
        r.width == width,
        r.height == height,
        r.style == track_style(),
        r.commands@ == gpx_commands(*gpx, width, height, strategy),
{
    let mut data: Vec<PathCommand> = Vec::new();
    if gpx.tracks.len() > 0 {
        let track = &gpx.tracks[0];
        let ghost segs = track.segments@;
        let n = track.segments.len();
        let mut i: usize = 0;
        while i < n
            invariant
                segs == track.segments@,
                n == segs.len(),
                0 <= i <= n,
                data@ == track_commands(segs.subrange(0, i as int), width, height, strategy),
            decreases n - i,
        {
            let mut part = generate_path(&track.segments[i], width, height, strategy);
            data.append(&mut part);
            assert(segs.subrange(0, i + 1).drop_last() =~= segs.subrange(0, i as int));
            i = i + 1;
        }
        assert(segs.subrange(0, n as int) =~= segs);
    }
    RenderedPath { width, height, commands: data, style: PathStyle::track() }
}

/// Draws the first track of `gpx` with smoothing curves.
pub fn gpx_to_svg(gpx: Gpx, width: u32, height: u32) -> (r: RenderedPath)
    ensures
        r.width == width,
        r.height == height,
        r.style == track_style(),
        r.commands@ == gpx_commands(gpx, width, height, CurveStrategy::Quadratic),
{
    gpx_to_path(&gpx, width, height, CurveStrategy::default())
}

} // verus!

//! Stroke and outline styling.
//!
//! A stroke style describes the swept band drawn along a path: its width,
//! the cap drawn at each open end, and the join drawn at each interior
//! vertex. An outline style instead offsets a filled shape's boundaries,
//! growing or shrinking the region. Angles are in binary angle units,
//! where a full turn is
//! `2^32`; arc-shaped caps and joins are approximated by segments whose
//! angular step is at most the given angle, so a smaller angle yields a
//! smoother curve. Caller-supplied custom cap points override the start or
//! end cap style; they are resolved here, in verified code, before the
//! engine is invoked.

use vstd::prelude::*;

use crate::geom::Contour;
use crate::geom::cview;

verus! {

/// Default angular step for round caps and joins: a twentieth of a turn.
pub const DEFAULT_STYLE_ANGLE: u32 = 214_748_365;

/// The endpoint style of a stroked line.
#[derive(Clone, Copy, Debug, PartialEq, Eq, Structural)]
pub enum LineCap {
    /// A squared-off end.
    Butt,
    /// A rounded end.
    Round,
    /// A squared-off end, extended by half the line width.
    Square,
}

/// The corner style where two stroked segments meet.
#[derive(Clone, Copy, Debug, PartialEq, Eq, Structural)]
pub enum LineJoin {
    /// Cuts the corner off.
    Bevel,
    /// A sharp corner, falling back to bevel for very sharp turns.
    Miter,
    /// An arc corner.
    Round,
}

/// A fully resolved cap: the style with its parameters filled in.
#[derive(Clone, Debug)]
pub enum CapStyle {
    Butt,
    /// A rounded cap with its angular step.
    Round(u32),
    Square,
    /// A caller-supplied cap outline, in input coordinate units.
    Custom(Contour),
}

/// A fully resolved join: the style with its angle filled in.
#[derive(Clone, Copy, Debug)]
pub enum JoinStyle {
    Bevel,
    /// A miter join with the sharpness cutoff angle.
    Miter(u32),
    /// An arc join with its angular step.
    Round(u32),
}

/// Plain-value view of a resolved cap: a style code, the angular step and
/// the custom points.
pub open spec fn cap_view(c: CapStyle) -> (int, int, Seq<(int, int)>) {
    match c {
        CapStyle::Butt => (0int, 0int, Seq::empty()),
        CapStyle::Round(a) => (1int, a as int, Seq::empty()),
        CapStyle::Square => (2int, 0int, Seq::empty()),
        CapStyle::Custom(pts) => (3int, 0int, cview(pts@)),
    }
}

/// Plain-value view of a resolved join: a style code and its angle.
pub open spec fn join_view(j: JoinStyle) -> (int, int) {
    match j {
        JoinStyle::Bevel => (0int, 0int),
        JoinStyle::Miter(a) => (1int, a as int),
        JoinStyle::Round(a) => (2int, a as int),
    }
}

/// Stroke configuration: width, caps, join and curve-approximation angles.
#[derive(Clone, Debug)]
pub struct StrokeStyle {
    /// The width of the stroke; the engine clamps negatives to zero.
    pub width: i32,
    /// The cap style at the start of the stroke.
    pub start_cap: LineCap,
    /// The cap style at the end of the stroke.
    pub end_cap: LineCap,
    /// The join style where two segments meet.
    pub join: LineJoin,
    /// Angular step for round caps, in binary angle units.
    pub round_cap_angle: u32,
    /// Angle parameter for joins: the arc step for round joins, the
    /// sharpness cutoff for miter joins.
    pub join_angle: u32,
    /// Custom points for the start cap; overrides `start_cap` if present.
    pub start_cap_points: Option<Contour>,
    /// Custom points for the end cap; overrides `end_cap` if present.
    pub end_cap_points: Option<Contour>,
}

/// The resolved start cap of a stroke style, as a plain value.
pub open spec fn start_cap_spec(s: StrokeStyle) -> (int, int, Seq<(int, int)>) {
    match s.start_cap_points {
        Some(pts) => (3int, 0int, cview(pts@)),
        None => match s.start_cap {
            LineCap::Butt => (0int, 0int, Seq::empty()),
            LineCap::Round => (1int, s.round_cap_angle as int, Seq::empty()),
            LineCap::Square => (2int, 0int, Seq::empty()),
        },
    }
}

/// The resolved end cap of a stroke style, as a plain value.
pub open spec fn end_cap_spec(s: StrokeStyle) -> (int, int, Seq<(int, int)>) {
    match s.end_cap_points {
        Some(pts) => (3int, 0int, cview(pts@)),
        None => match s.end_cap {
            LineCap::Butt => (0int, 0int, Seq::empty()),
            LineCap::Round => (1int, s.round_cap_angle as int, Seq::empty()),
            LineCap::Square => (2int, 0int, Seq::empty()),
        },
    }
}

/// The resolved join of a stroke style, as a plain value.
pub open spec fn stroke_join_spec(s: StrokeStyle) -> (int, int) {
    match s.join {
        LineJoin::Bevel => (0int, 0int),
        LineJoin::Miter => (1int, s.join_angle as int),
        LineJoin::Round => (2int, s.join_angle as int),
    }
}

impl StrokeStyle {
    /// A stroke of the given width with butt caps, bevel joins and the
    /// default curve-approximation angle.
    pub fn new(width: i32) -> (s: StrokeStyle)
        ensures
            s.width == width,
            s.start_cap == LineCap::Butt,
            s.end_cap == LineCap::Butt,
            s.join == LineJoin::Bevel,
            s.round_cap_angle == DEFAULT_STYLE_ANGLE,
            s.join_angle == DEFAULT_STYLE_ANGLE,
            s.start_cap_points is None,
            s.end_cap_points is None,
    {
        StrokeStyle {
            width,
            start_cap: LineCap::Butt,
            end_cap: LineCap::Butt,
            join: LineJoin::Bevel,
            round_cap_angle: DEFAULT_STYLE_ANGLE,
            join_angle: DEFAULT_STYLE_ANGLE,
            start_cap_points: None,
            end_cap_points: None,
        }
    }

    /// Resolves the start cap: custom points win over the cap style.
    pub fn resolved_start_cap(&self) -> (c: CapStyle)
        ensures
            cap_view(c) == start_cap_spec(*self),
    {
        match &self.start_cap_points {
            Some(pts) => CapStyle::Custom(pts.clone()),
            None => match self.start_cap {
                LineCap::Butt => CapStyle::Butt,
                LineCap::Round => CapStyle::Round(self.round_cap_angle),
                LineCap::Square => CapStyle::Square,
            },
        }
    }

    /// Resolves the end cap: custom points win over the cap style.
    pub fn resolved_end_cap(&self) -> (c: CapStyle)
        ensures
            cap_view(c) == end_cap_spec(*self),
    {
        match &self.end_cap_points {
            Some(pts) => CapStyle::Custom(pts.clone()),
            None => match self.end_cap {
                LineCap::Butt => CapStyle::Butt,
                LineCap::Round => CapStyle::Round(self.round_cap_angle),
                LineCap::Square => CapStyle::Square,
            },
        }
    }

    /// Resolves the join with its angle parameter.
    pub fn resolved_join(&self) -> (j: JoinStyle)
        ensures
            join_view(j) == stroke_join_spec(*self),
    {
        match self.join {
            LineJoin::Bevel => JoinStyle::Bevel,
            LineJoin::Miter => JoinStyle::Miter(self.join_angle),
            LineJoin::Round => JoinStyle::Round(self.join_angle),
        }
    }
}

/// Outline configuration: signed boundary offsets and the join style.
/// Positive offsets expand the filled region: outer boundaries grow and
/// holes shrink. Negative offsets contract it.
#[derive(Clone, Copy, Debug)]
pub struct OutlineStyle {
    /// Signed offset applied to outer boundaries.
    pub outer_offset: i32,
    /// Signed offset applied to hole boundaries.
    pub inner_offset: i32,
    /// The join style at corners.
    pub join: LineJoin,
    /// Angle parameter for joins, as in [`StrokeStyle`].
    pub join_angle: u32,
}

/// The resolved join of an outline style, as a plain value.
pub open spec fn outline_join_spec(s: OutlineStyle) -> (int, int) {
    match s.join {
        LineJoin::Bevel => (0int, 0int),
        LineJoin::Miter => (1int, s.join_angle as int),
        LineJoin::Round => (2int, s.join_angle as int),
    }
}

impl OutlineStyle {
    /// An outline applying the same signed offset to outer boundaries and
    /// holes, with bevel joins and the default curve-approximation angle.
    pub fn new(offset: i32) -> (s: OutlineStyle)
        ensures
            s.outer_offset == offset,
            s.inner_offset == offset,
            s.join == LineJoin::Bevel,
            s.join_angle == DEFAULT_STYLE_ANGLE,
    {
        OutlineStyle {
            outer_offset: offset,
            inner_offset: offset,
            join: LineJoin::Bevel,
            join_angle: DEFAULT_STYLE_ANGLE,
        }
    }

    /// Resolves the join with its angle parameter.
    pub fn resolved_join(&self) -> (j: JoinStyle)
        ensures
            join_view(j) == outline_join_spec(*self),
    {
        match self.join {
            LineJoin::Bevel => JoinStyle::Bevel,
            LineJoin::Miter => JoinStyle::Miter(self.join_angle),
            LineJoin::Round => JoinStyle::Round(self.join_angle),
        }
    }
}

} // verus!

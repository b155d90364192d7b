//! The trusted boundary to the `i_overlay` engine.
//!
//! The engine's geometry containers hold its own point type, which the
//! verifier cannot inspect; they are wrapped in opaque container structs
//! whose contents are described by uninterpreted view functions over
//! coordinate pairs. Conversions in and out are exact. Each operation
//! wrapper makes one engine call; its result is named by an uninterpreted
//! function of the call's arguments, which is sound because the engine is
//! deterministic for fixed input: work is sharded and merged by index, not
//! by thread completion order.
//!
//! Every coordinate handed to the boolean engine must stay strictly
//! between `-2^30` and `2^30`; the wrappers require it. The mesh wrappers
//! instead run the engine's own conservative bounds validation and report
//! failure as `None`.

use vstd::prelude::*;

use crate::geom::Paths;
use crate::geom::Point;
use crate::geom::Shapes;
use crate::geom::ssview;
use crate::geom::sview;
use crate::geom::view_in_range2;
use crate::geom::view_in_range3;
use crate::mesh::CapStyle;
use crate::mesh::JoinStyle;
use crate::mesh::cap_view;
use crate::mesh::join_view;
use crate::options::CoreClipRule;
use crate::options::CoreSolver;
use crate::rules::CoreDirection;
use crate::rules::CoreFillRule;
use crate::rules::CoreOverlayRule;
use crate::rules::fill_code;
use crate::rules::rule_code;
use crate::options::solver_view;
use i_overlay::i_float::int::angle::Angle;
use i_overlay::i_float::int::point::IntPoint;
use i_overlay::i_shape::int::path::IntPath;
use i_overlay::i_shape::int::shape::IntShapes;
use i_overlay::mesh::int::arc::ArcOptions;
use i_overlay::mesh::int::outline::offset::IntOutlineOffset;
use i_overlay::mesh::int::stroke::offset::IntStrokeOffset;
use i_overlay::mesh::int::style::IntLineCap;
use i_overlay::mesh::int::style::IntLineJoin;
use i_overlay::mesh::int::style::IntOutlineStyle;
use i_overlay::mesh::int::style::IntStrokeStyle;
use i_overlay::string::overlay::StringOverlay;
use i_overlay::string::rule::StringRule;

verus! {

/// An engine-side shape collection, opaque to the verifier.
#[verifier::external_body]
pub struct EngineShapes {
    inner: IntShapes<i32>,
}

/// An engine-side path collection, opaque to the verifier.
#[verifier::external_body]
pub struct EnginePaths {
    inner: Vec<IntPath<i32>>,
}

/// An engine-side stroke or outline cap, opaque to the verifier.
#[verifier::external_body]
pub struct EngineCap {
    inner: IntLineCap<i32>,
}

/// An engine-side join, opaque to the verifier.
#[verifier::external_body]
pub struct EngineJoin {
    inner: IntLineJoin,
}

/// What an engine-side shape collection holds, as coordinate pairs.
pub uninterp spec fn engine_shapes(s: EngineShapes) -> Seq<Seq<Seq<(int, int)>>>;

/// What an engine-side path collection holds, as coordinate pairs.
pub uninterp spec fn engine_paths(p: EnginePaths) -> Seq<Seq<(int, int)>>;

/// What an engine-side cap holds: style code, angular step, custom points.
pub uninterp spec fn engine_cap(c: EngineCap) -> (int, int, Seq<(int, int)>);

/// What an engine-side join holds: style code and angle.
pub uninterp spec fn engine_join(j: EngineJoin) -> (int, int);

/// The result of the boolean overlay engine on the given operand views,
/// overlay rule, fill rule, collinear-point flags and solver settings,
/// extracted counter-clockwise with no area filtering.
pub uninterp spec fn overlay_of(
    subject: Seq<Seq<Seq<(int, int)>>>,
    clip: Seq<Seq<Seq<(int, int)>>>,
    op: int,
    fill: int,
    preserve_in: bool,
    preserve_out: bool,
    solver: (int, int, int, bool),
) -> Seq<Seq<Seq<(int, int)>>>;

/// The polyline portions the clip engine keeps for the given paths,
/// filled region, fill rule, clip-rule flags and solver settings.
pub uninterp spec fn clip_of(
    paths: Seq<Seq<(int, int)>>,
    shapes: Seq<Seq<Seq<(int, int)>>>,
    fill: int,
    invert: bool,
    boundary_included: bool,
    solver: (int, int, int, bool),
) -> Seq<Seq<(int, int)>>;

/// The sub-shapes the slice engine produces when cutting the given filled
/// region along the given polylines, extracted counter-clockwise with no
/// area filtering.
pub uninterp spec fn slice_of(
    shapes: Seq<Seq<Seq<(int, int)>>>,
    paths: Seq<Seq<(int, int)>>,
    fill: int,
    solver: (int, int, int, bool),
) -> Seq<Seq<Seq<(int, int)>>>;

/// The swept-band shapes the stroke engine builds along the given paths
/// with the given width, caps, join, closure flag and collinear flags.
pub uninterp spec fn stroke_of(
    paths: Seq<Seq<(int, int)>>,
    width: int,
    start_cap: (int, int, Seq<(int, int)>),
    end_cap: (int, int, Seq<(int, int)>),
    join: (int, int),
    closed: bool,
    preserve_in: bool,
    preserve_out: bool,
) -> Seq<Seq<Seq<(int, int)>>>;

/// Whether the stroke engine's conservative coordinate-budget check passes
/// for the given paths and style.
pub uninterp spec fn stroke_fits(
    paths: Seq<Seq<(int, int)>>,
    width: int,
    start_cap: (int, int, Seq<(int, int)>),
    end_cap: (int, int, Seq<(int, int)>),
    join: (int, int),
) -> bool;

/// The offset shapes the outline engine builds around the given shapes
/// with the given outer and inner offsets, join and collinear flags.
pub uninterp spec fn outline_of(
    shapes: Seq<Seq<Seq<(int, int)>>>,
    outer_offset: int,
    inner_offset: int,
    join: (int, int),
    preserve_in: bool,
    preserve_out: bool,
) -> Seq<Seq<Seq<(int, int)>>>;

/// Whether the outline engine's conservative coordinate-budget check
/// passes for the given shapes and style.
pub uninterp spec fn outline_fits(
    shapes: Seq<Seq<Seq<(int, int)>>>,
    outer_offset: int,
    inner_offset: int,
    join: (int, int),
) -> bool;

/// Relies on `IntPoint::new`: moves each coordinate pair into the engine's
/// point type, preserving layout and order.
#[verifier::external_body]
pub fn shapes_to_engine(s: &Shapes) -> (r: EngineShapes)
    ensures
        engine_shapes(r) == ssview(s@),
{
    EngineShapes {
        inner: s.iter().map(
            |sh| sh.iter().map(|c| c.iter().map(|p| IntPoint::new(p.x, p.y)).collect()).collect(),
        ).collect(),
    }
}

/// Relies on the engine point's public fields: moves each engine point
/// back into a coordinate pair, preserving layout and order.
#[verifier::external_body]
pub fn shapes_from_engine(s: EngineShapes) -> (r: Shapes)
    ensures
        ssview(r@) == engine_shapes(s),
{
    s.inner.into_iter().map(
        |sh| sh.into_iter().map(
            |c| c.into_iter().map(|p| Point { x: p.x, y: p.y }).collect(),
        ).collect(),
    ).collect()
}

/// Relies on `IntPoint::new`: moves each coordinate pair into the engine's
/// point type, preserving layout and order.
#[verifier::external_body]
pub fn paths_to_engine(p: &Paths) -> (r: EnginePaths)
    ensures
        engine_paths(r) == sview(p@),
{
    EnginePaths {
        inner: p.iter().map(|c| c.iter().map(|q| IntPoint::new(q.x, q.y)).collect()).collect(),
    }
}

/// Relies on the engine point's public fields: moves each engine point
/// back into a coordinate pair, preserving layout and order.
#[verifier::external_body]
pub fn paths_from_engine(p: EnginePaths) -> (r: Paths)
    ensures
        sview(r@) == engine_paths(p),
{
    p.inner.into_iter().map(|c| c.into_iter().map(|q| Point { x: q.x, y: q.y }).collect()).collect()
}

/// Relies on `Angle::from_bits` and `IntPoint::new`: builds the engine cap
/// that corresponds to a resolved cap, field for field.
#[verifier::external_body]
pub fn cap_to_engine(c: &CapStyle) -> (r: EngineCap)
    ensures
        engine_cap(r) == cap_view(*c),
{
    let inner = match c {
        CapStyle::Butt => IntLineCap::Butt,
        CapStyle::Round(a) => IntLineCap::Round(
            ArcOptions { max_step: Angle::from_bits(*a), ..ArcOptions::default() },
        ),
        CapStyle::Square => IntLineCap::Square,
        CapStyle::Custom(v) => IntLineCap::Custom(
            v.iter().map(|p| IntPoint::new(p.x, p.y)).collect::<Vec<_>>().into(),
        ),
    };
    EngineCap { inner }
}

/// Relies on `Angle::from_bits`: builds the engine join that corresponds
/// to a resolved join, field for field.
#[verifier::external_body]
pub fn join_to_engine(j: &JoinStyle) -> (r: EngineJoin)
    ensures
        engine_join(r) == join_view(*j),
{
    let inner = match j {
        JoinStyle::Bevel => IntLineJoin::Bevel,
        JoinStyle::Miter(a) => IntLineJoin::Miter(Angle::from_bits(*a)),
        JoinStyle::Round(a) => IntLineJoin::Round(
            ArcOptions { max_step: Angle::from_bits(*a), ..ArcOptions::default() },
        ),
    };
    EngineJoin { inner }
}

/// Relies on `Overlay::from_subj_and_clip_custom` and `Overlay::overlay`:
/// one boolean overlay run, counter-clockwise, without area filtering.
/// With no operand shapes there are no segments, and the engine returns
/// an empty result.
#[verifier::external_body]
pub fn overlay_engine(
    subject: &EngineShapes,
    clip: &EngineShapes,
    op: CoreOverlayRule,
    fill: CoreFillRule,
    preserve_in: bool,
    preserve_out: bool,
    solver: CoreSolver,
) -> (r: EngineShapes)
    requires
        view_in_range3(engine_shapes(*subject)),
        view_in_range3(engine_shapes(*clip)),
    ensures
        engine_shapes(r) == overlay_of(
            engine_shapes(*subject),
            engine_shapes(*clip),
            rule_code(op),
            fill_code(fill),
            preserve_in,
            preserve_out,
            solver_view(solver),
        ),
        engine_shapes(*subject).len() == 0 && engine_shapes(*clip).len() == 0
            ==> engine_shapes(r).len() == 0,
{
    let opts = i_overlay::core::overlay::IntOverlayOptions { preserve_input_collinear: preserve_in, output_direction: CoreDirection::CounterClockwise, preserve_output_collinear: preserve_out, min_output_area: 0u64, ogc: false };
    let mut engine = i_overlay::core::overlay::Overlay::from_subj_and_clip_custom(
        &subject.inner,
        &clip.inner,
        opts,
        solver,
    );
    EngineShapes { inner: engine.overlay(op, fill) }
}

/// Relies on `StringOverlay::from_shape_and_string` and
/// `StringOverlay::clip_string_lines_with_solver`: keeps the polyline
/// portions selected by the fill and clip rules. With no geometry at all
/// there are no segments, and the engine returns an empty result.
#[verifier::external_body]
pub fn clip_engine(
    paths: &EnginePaths,
    shapes: &EngineShapes,
    fill: CoreFillRule,
    clip_rule: CoreClipRule,
    solver: CoreSolver,
) -> (r: EnginePaths)
    requires
        view_in_range2(engine_paths(*paths)),
        view_in_range3(engine_shapes(*shapes)),
    ensures
        engine_paths(r) == clip_of(
            engine_paths(*paths),
            engine_shapes(*shapes),
            fill_code(fill),
            clip_rule.invert,
            clip_rule.boundary_included,
            solver_view(solver),
        ),
        engine_paths(*paths).len() == 0 && engine_shapes(*shapes).len() == 0
            ==> engine_paths(r).len() == 0,
{
    let overlay = StringOverlay::from_shape_and_string(&shapes.inner, &paths.inner);
    EnginePaths { inner: overlay.clip_string_lines_with_solver(fill, clip_rule, solver) }
}

/// Relies on `StringOverlay::build_graph_view_with_solver` and
/// `StringGraph::extract_shapes`: cuts the filled region along the paths,
/// counter-clockwise, without area filtering. With no geometry at all
/// there is no graph, and the engine returns an empty result.
#[verifier::external_body]
pub fn slice_engine(
    shapes: &EngineShapes,
    paths: &EnginePaths,
    fill: CoreFillRule,
    solver: CoreSolver,
) -> (r: EngineShapes)
    requires
        view_in_range3(engine_shapes(*shapes)),
        view_in_range2(engine_paths(*paths)),
    ensures
        engine_shapes(r) == slice_of(
            engine_shapes(*shapes),
            engine_paths(*paths),
            fill_code(fill),
            solver_view(solver),
        ),
        engine_shapes(*shapes).len() == 0 && engine_paths(*paths).len() == 0
            ==> engine_shapes(r).len() == 0,
{
    let mut overlay = StringOverlay::from_shape_and_string(&shapes.inner, &paths.inner);
    let inner = match overlay.build_graph_view_with_solver(fill, solver) {
        Some(graph) => graph.extract_shapes(StringRule::Slice),
        None => Vec::new(),
    };
    EngineShapes { inner }
}

/// Relies on `validate_stroke` and `stroke_custom`: builds the swept band
/// along each path, or reports that the coordinate budget is exceeded.
/// Empty input passes validation and produces no segments, so it yields
/// an empty result.
#[verifier::external_body]
pub fn stroke_engine(
    paths: &EnginePaths,
    width: i32,
    start_cap: &EngineCap,
    end_cap: &EngineCap,
    join: &EngineJoin,
    closed: bool,
    preserve_in: bool,
    preserve_out: bool,
) -> (r: Option<EngineShapes>)
    ensures
        r is Some <==> stroke_fits(
            engine_paths(*paths),
            width as int,
            engine_cap(*start_cap),
            engine_cap(*end_cap),
            engine_join(*join),
        ),
        r is Some ==> engine_shapes(r->0) == stroke_of(
            engine_paths(*paths),
            width as int,
            engine_cap(*start_cap),
            engine_cap(*end_cap),
            engine_join(*join),
            closed,
            preserve_in,
            preserve_out,
        ),
        engine_paths(*paths).len() == 0 ==> r is Some,
        (r is Some && engine_paths(*paths).len() == 0) ==> engine_shapes(r->0).len() == 0,
{
    let mut style = IntStrokeStyle::new(width);
    style.start_cap = start_cap.inner.clone();
    style.end_cap = end_cap.inner.clone();
    style.join = join.inner;
    if paths.inner.validate_stroke(&style).is_err() {
        return None;
    }
    let opts = i_overlay::core::overlay::IntOverlayOptions { preserve_input_collinear: preserve_in, output_direction: CoreDirection::CounterClockwise, preserve_output_collinear: preserve_out, min_output_area: 0u64, ogc: false };
    let inner = paths.inner.stroke_custom(&style, closed, opts).unwrap_or_default();
    Some(EngineShapes { inner })
}

/// Relies on `validate_outline` and `outline_custom`: offsets the shapes'
/// boundaries, or reports that the coordinate budget is exceeded. Empty
/// input passes validation and produces no segments, so it yields an
/// empty result.
#[verifier::external_body]
pub fn outline_engine(
    shapes: &EngineShapes,
    outer_offset: i32,
    inner_offset: i32,
    join: &EngineJoin,
    preserve_in: bool,
    preserve_out: bool,
) -> (r: Option<EngineShapes>)
    ensures
        r is Some <==> outline_fits(
            engine_shapes(*shapes),
            outer_offset as int,
            inner_offset as int,
            engine_join(*join),
        ),
        r is Some ==> engine_shapes(r->0) == outline_of(
            engine_shapes(*shapes),
            outer_offset as int,
            inner_offset as int,
            engine_join(*join),
            preserve_in,
            preserve_out,
        ),
        engine_shapes(*shapes).len() == 0 ==> r is Some,
        (r is Some && engine_shapes(*shapes).len() == 0) ==> engine_shapes(r->0).len() == 0,
{
    let style = IntOutlineStyle::new(outer_offset).inner_offset(inner_offset).line_join(join.inner);
    if shapes.inner.validate_outline(&style).is_err() {
        return None;
    }
    let opts = i_overlay::core::overlay::IntOverlayOptions { preserve_input_collinear: preserve_in, output_direction: CoreDirection::CounterClockwise, preserve_output_collinear: preserve_out, min_output_area: 0u64, ogc: false };
    let inner = shapes.inner.outline_custom(&style, opts).unwrap_or_default();
    Some(EngineShapes { inner })
}

} // verus!

//! The public geometry operations.
//!
//! Every operation follows the same pipeline: normalise the incoming
//! shape operands, hand the geometry to the engine, and post-process the
//! extraction result according to the output options. The contracts chain
//! those three stages: the first and last are fully verified, the engine
//! stage is named by the uninterpreted functions of the trusted boundary.
//! Every result provably contains only nonempty shapes whose contours
//! have at least three points and, when a minimum output area is set, at
//! least that much absolute area.

use vstd::prelude::*;

use crate::engine::clip_of;
use crate::engine::outline_fits;
use crate::engine::outline_of;
use crate::engine::overlay_of;
use crate::engine::slice_of;
use crate::engine::stroke_fits;
use crate::engine::stroke_of;
use crate::extract::apply_output_options;
use crate::extract::keep_contour;
use crate::extract::lemma_filter_shapes_kept;
use crate::extract::oriented;
use crate::extract::post_process;
use crate::geom::Path;
use crate::geom::Paths;
use crate::geom::Shape;
use crate::geom::Shapes;
use crate::geom::lemma_nested_range_view;
use crate::geom::lemma_paths_range_view;
use crate::geom::lemma_shapes_range_seq;
use crate::geom::nested_view;
use crate::geom::paths_in_range;
use crate::geom::shapes_in_range;
use crate::geom::shapes_seq;
use crate::geom::ssview;
use crate::geom::sview;
use crate::mesh::OutlineStyle;
use crate::mesh::StrokeStyle;
use crate::mesh::end_cap_spec;
use crate::mesh::outline_join_spec;
use crate::mesh::start_cap_spec;
use crate::mesh::stroke_join_spec;
use crate::normalize::lemma_normalize_shapes_in_range;
use crate::normalize::normalize_shapes;
use crate::normalize::normalize_shapes_spec;
use crate::options::CoreClipRule;
use crate::options::CoreSolver;
use crate::options::OverlayOptions;
use crate::options::solver_view;
use crate::rules::CoreFillRule;
use crate::rules::CoreOverlayRule;
use crate::rules::dir_code;
use crate::rules::fill_code;
use crate::rules::rule_code;

verus! {

/// The overlay pipeline as a specification: both operands normalised, the
/// engine run with the requested rules, the result post-processed.
pub open spec fn overlay_spec(
    subject: Seq<Shape>,
    clip: Seq<Shape>,
    op: CoreOverlayRule,
    fill: CoreFillRule,
    options: OverlayOptions,
    solver: CoreSolver,
) -> Seq<Seq<Seq<(int, int)>>> {
    post_process(
        overlay_of(
            nested_view(normalize_shapes_spec(shapes_seq(subject))),
            nested_view(normalize_shapes_spec(shapes_seq(clip))),
            rule_code(op),
            fill_code(fill),
            options.preserve_input_collinear,
            options.preserve_output_collinear,
            solver_view(solver),
        ),
        dir_code(options.output_direction),
        options.min_output_area as int,
    )
}

/// Performs one boolean overlay of the subject and clip operands.
///
/// The result is the engine's extraction for the requested overlay and
/// fill rules, post-processed per the output options. Whatever the rules,
/// every returned shape is nonempty and every contour passes the length
/// and minimum-area checks.
pub fn overlay(
    subject: &Shapes,
    clip: &Shapes,
    overlay_rule: CoreOverlayRule,
    fill_rule: CoreFillRule,
    options: &OverlayOptions,
    solver: CoreSolver,
) -> (r: Shapes)
    requires
        shapes_in_range(subject@),
        shapes_in_range(clip@),
    ensures
        ssview(r@) == overlay_spec(subject@, clip@, overlay_rule, fill_rule, *options, solver),
        forall|i: int| 0 <= i < ssview(r@).len() ==> (#[trigger] ssview(r@)[i]).len() > 0,
        forall|i: int, j: int|
            0 <= i < ssview(r@).len() && 0 <= j < ssview(r@)[i].len() ==> keep_contour(
                #[trigger] ssview(r@)[i][j],
                options.min_output_area as int,
            ),
        subject@.len() == 0 && clip@.len() == 0 ==> r@.len() == 0,
{
    let norm_subject = normalize_shapes(subject);
    let norm_clip = normalize_shapes(clip);
    proof {
        lemma_shapes_range_seq(subject@);
        lemma_normalize_shapes_in_range(shapes_seq(subject@));
        lemma_nested_range_view(normalize_shapes_spec(shapes_seq(subject@)));
        lemma_shapes_range_seq(clip@);
        lemma_normalize_shapes_in_range(shapes_seq(clip@));
        lemma_nested_range_view(normalize_shapes_spec(shapes_seq(clip@)));
    }
    let engine_subject = crate::engine::shapes_to_engine(&norm_subject);
    let engine_clip = crate::engine::shapes_to_engine(&norm_clip);
    let raw = crate::engine::overlay_engine(
        &engine_subject,
        &engine_clip,
        overlay_rule,
        fill_rule,
        options.preserve_input_collinear,
        options.preserve_output_collinear,
        solver,
    );
    let extracted = crate::engine::shapes_from_engine(raw);
    let ghost raw_view = ssview(extracted@);
    let out = apply_output_options(extracted, options);
    proof {
        lemma_filter_shapes_kept(
            oriented(raw_view, dir_code(options.output_direction)),
            options.min_output_area as int,
        );
        if subject@.len() == 0 && clip@.len() == 0 {
            assert(shapes_seq(subject@).len() == 0);
            assert(shapes_seq(clip@).len() == 0);
            assert(nested_view(normalize_shapes_spec(shapes_seq(subject@))).len() == 0);
            assert(nested_view(normalize_shapes_spec(shapes_seq(clip@))).len() == 0);
            assert(raw_view.len() == 0);
            assert(oriented(raw_view, dir_code(options.output_direction)).len() == 0);
            assert(ssview(out@).len() == 0);
        }
    }
    out
}

/// Resolves the subject's self-intersections: an overlay of the shapes
/// against an empty clip operand under the `Subject` rule.
pub fn simplify_shape(
    shapes: &Shapes,
    fill_rule: CoreFillRule,
    options: &OverlayOptions,
    solver: CoreSolver,
) -> (r: Shapes)
    requires
        shapes_in_range(shapes@),
    ensures
        ssview(r@) == overlay_spec(
            shapes@,
            Seq::empty(),
            CoreOverlayRule::Subject,
            fill_rule,
            *options,
            solver,
        ),
        forall|i: int| 0 <= i < ssview(r@).len() ==> (#[trigger] ssview(r@)[i]).len() > 0,
        forall|i: int, j: int|
            0 <= i < ssview(r@).len() && 0 <= j < ssview(r@)[i].len() ==> keep_contour(
                #[trigger] ssview(r@)[i][j],
                options.min_output_area as int,
            ),
{
    let empty: Shapes = Vec::new();
    let r = overlay(shapes, &empty, CoreOverlayRule::Subject, fill_rule, options, solver);
    proof {
        assert(empty@ =~= Seq::<Shape>::empty());
    }
    r
}

/// A reusable overlay query: the operands, fill rule, options and solver
/// are fixed once, and results can then be extracted under any overlay
/// rule. Extraction under a rule returns exactly what [`overlay`] returns
/// for the stored operands and that rule.
pub struct OverlayGraph {
    /// The subject operand.
    pub subject: Shapes,
    /// The clip operand.
    pub clip: Shapes,
    /// The fill rule fixed for every extraction.
    pub fill_rule: CoreFillRule,
    /// The output options applied to every extraction.
    pub options: OverlayOptions,
    /// The solver configuration.
    pub solver: CoreSolver,
}

impl OverlayGraph {
    /// Both operands lie in the engine's coordinate range.
    pub open spec fn wf(self) -> bool {
        shapes_in_range(self.subject@) && shapes_in_range(self.clip@)
    }

    /// Fixes the operands and configuration for later extractions.
    pub fn new(
        subject: Shapes,
        clip: Shapes,
        fill_rule: CoreFillRule,
        options: OverlayOptions,
        solver: CoreSolver,
    ) -> (g: OverlayGraph)
        requires
            shapes_in_range(subject@),
            shapes_in_range(clip@),
        ensures
            g.wf(),
            g.subject@ == subject@,
            g.clip@ == clip@,
            g.fill_rule == fill_rule,
            g.options == options,
            g.solver == solver,
    {
        OverlayGraph { subject, clip, fill_rule, options, solver }
    }

    /// Extracts the overlay result for one rule from the stored operands.
    pub fn extract_shapes(&self, overlay_rule: CoreOverlayRule) -> (r: Shapes)
        requires
            self.wf(),
        ensures
            ssview(r@) == overlay_spec(
                self.subject@,
                self.clip@,
                overlay_rule,
                self.fill_rule,
                self.options,
                self.solver,
            ),
            forall|i: int| 0 <= i < ssview(r@).len() ==> (#[trigger] ssview(r@)[i]).len() > 0,
            forall|i: int, j: int|
                0 <= i < ssview(r@).len() && 0 <= j < ssview(r@)[i].len() ==> keep_contour(
                    #[trigger] ssview(r@)[i][j],
                    self.options.min_output_area as int,
                ),
    {
        overlay(&self.subject, &self.clip, overlay_rule, self.fill_rule, &self.options, self.solver)
    }
}

/// The clip pipeline as a specification: the region operand normalised,
/// the engine keeping the selected polyline portions.
pub open spec fn clip_spec(
    paths: Seq<Path>,
    shapes: Seq<Shape>,
    fill: CoreFillRule,
    clip_rule: CoreClipRule,
    solver: CoreSolver,
) -> Seq<Seq<(int, int)>> {
    clip_of(
        sview(paths),
        nested_view(normalize_shapes_spec(shapes_seq(shapes))),
        fill_code(fill),
        clip_rule.invert,
        clip_rule.boundary_included,
        solver_view(solver),
    )
}

/// Clips open polylines against a filled region: keeps the polyline
/// portions inside the region, or outside it when the clip rule inverts
/// the selection, with boundary segments included or excluded as the clip
/// rule says.
pub fn clip_by(
    paths: &Paths,
    shapes: &Shapes,
    fill_rule: CoreFillRule,
    clip_rule: CoreClipRule,
    solver: CoreSolver,
) -> (r: Paths)
    requires
        paths_in_range(paths@),
        shapes_in_range(shapes@),
    ensures
        sview(r@) == clip_spec(paths@, shapes@, fill_rule, clip_rule, solver),
        paths@.len() == 0 && shapes@.len() == 0 ==> r@.len() == 0,
{
    let norm_shapes = normalize_shapes(shapes);
    proof {
        lemma_paths_range_view(paths@);
        lemma_shapes_range_seq(shapes@);
        lemma_normalize_shapes_in_range(shapes_seq(shapes@));
        lemma_nested_range_view(normalize_shapes_spec(shapes_seq(shapes@)));
    }
    let engine_paths = crate::engine::paths_to_engine(paths);
    let engine_shapes = crate::engine::shapes_to_engine(&norm_shapes);
    let clipped = crate::engine::clip_engine(
        &engine_paths,
        &engine_shapes,
        fill_rule,
        clip_rule,
        solver,
    );
    let out = crate::engine::paths_from_engine(clipped);
    proof {
        if paths@.len() == 0 && shapes@.len() == 0 {
            assert(sview(paths@).len() == 0);
            assert(shapes_seq(shapes@).len() == 0);
            assert(nested_view(normalize_shapes_spec(shapes_seq(shapes@))).len() == 0);
            assert(sview(out@).len() == 0);
        }
    }
    out
}

/// The slice pipeline as a specification: the region operand normalised,
/// the engine cutting it along the polylines, the result post-processed.
pub open spec fn slice_spec(
    shapes: Seq<Shape>,
    paths: Seq<Path>,
    fill: CoreFillRule,
    options: OverlayOptions,
    solver: CoreSolver,
) -> Seq<Seq<Seq<(int, int)>>> {
    post_process(
        slice_of(
            nested_view(normalize_shapes_spec(shapes_seq(shapes))),
            sview(paths),
            fill_code(fill),
            solver_view(solver),
        ),
        dir_code(options.output_direction),
        options.min_output_area as int,
    )
}

/// Slices a filled region along open polylines, returning the filled
/// sub-shapes on both sides of each cut.
pub fn slice_by(
    shapes: &Shapes,
    paths: &Paths,
    fill_rule: CoreFillRule,
    options: &OverlayOptions,
    solver: CoreSolver,
) -> (r: Shapes)
    requires
        shapes_in_range(shapes@),
        paths_in_range(paths@),
    ensures
        ssview(r@) == slice_spec(shapes@, paths@, fill_rule, *options, solver),
        shapes@.len() == 0 && paths@.len() == 0 ==> r@.len() == 0,
        forall|i: int| 0 <= i < ssview(r@).len() ==> (#[trigger] ssview(r@)[i]).len() > 0,
        forall|i: int, j: int|
            0 <= i < ssview(r@).len() && 0 <= j < ssview(r@)[i].len() ==> keep_contour(
                #[trigger] ssview(r@)[i][j],
                options.min_output_area as int,
            ),
{
    let norm_shapes = normalize_shapes(shapes);
    proof {
        lemma_paths_range_view(paths@);
        lemma_shapes_range_seq(shapes@);
        lemma_normalize_shapes_in_range(shapes_seq(shapes@));
        lemma_nested_range_view(normalize_shapes_spec(shapes_seq(shapes@)));
    }
    let engine_shapes = crate::engine::shapes_to_engine(&norm_shapes);
    let engine_paths = crate::engine::paths_to_engine(paths);
    let raw = crate::engine::slice_engine(&engine_shapes, &engine_paths, fill_rule, solver);
    let extracted = crate::engine::shapes_from_engine(raw);
    let ghost raw_view = ssview(extracted@);
    let out = apply_output_options(extracted, options);
    proof {
        lemma_filter_shapes_kept(
            oriented(raw_view, dir_code(options.output_direction)),
            options.min_output_area as int,
        );
        if shapes@.len() == 0 && paths@.len() == 0 {
            assert(shapes_seq(shapes@).len() == 0);
            assert(nested_view(normalize_shapes_spec(shapes_seq(shapes@))).len() == 0);
            assert(sview(paths@).len() == 0);
            assert(raw_view.len() == 0);
            assert(oriented(raw_view, dir_code(options.output_direction)).len() == 0);
            assert(ssview(out@).len() == 0);
        }
    }
    out
}

/// Whether the stroke engine's coordinate budget admits the given paths
/// and style.
pub open spec fn stroke_fits_spec(paths: Seq<Path>, style: StrokeStyle) -> bool {
    stroke_fits(
        sview(paths),
        style.width as int,
        start_cap_spec(style),
        end_cap_spec(style),
        stroke_join_spec(style),
    )
}

/// The stroke pipeline as a specification: the engine sweeps the band
/// along the paths, and the result is post-processed.
pub open spec fn stroke_spec(
    paths: Seq<Path>,
    style: StrokeStyle,
    closed: bool,
    options: OverlayOptions,
) -> Seq<Seq<Seq<(int, int)>>> {
    post_process(
        stroke_of(
            sview(paths),
            style.width as int,
            start_cap_spec(style),
            end_cap_spec(style),
            stroke_join_spec(style),
            closed,
            options.preserve_input_collinear,
            options.preserve_output_collinear,
        ),
        dir_code(options.output_direction),
        options.min_output_area as int,
    )
}

/// Builds the closed shapes swept by a band of the style's width along
/// each path, with the style's caps at open ends and its join at interior
/// vertices. Returns `None` when the engine's conservative coordinate
/// budget rejects the operation; empty input yields an empty result.
pub fn stroke(
    paths: &Paths,
    style: &StrokeStyle,
    is_closed: bool,
    options: &OverlayOptions,
) -> (r: Option<Shapes>)
    ensures
        r is Some <==> stroke_fits_spec(paths@, *style),
        r is Some ==> ssview(r->0@) == stroke_spec(paths@, *style, is_closed, *options),
        r is Some ==> forall|i: int|
            0 <= i < ssview(r->0@).len() ==> (#[trigger] ssview(r->0@)[i]).len() > 0,
        r is Some ==> forall|i: int, j: int|
            0 <= i < ssview(r->0@).len() && 0 <= j < ssview(r->0@)[i].len() ==> keep_contour(
                #[trigger] ssview(r->0@)[i][j],
                options.min_output_area as int,
            ),
        paths@.len() == 0 ==> r is Some && r->0@.len() == 0,
{
    let start_cap = crate::engine::cap_to_engine(&style.resolved_start_cap());
    let end_cap = crate::engine::cap_to_engine(&style.resolved_end_cap());
    let join = crate::engine::join_to_engine(&style.resolved_join());
    let engine_paths = crate::engine::paths_to_engine(paths);
    let swept = crate::engine::stroke_engine(
        &engine_paths,
        style.width,
        &start_cap,
        &end_cap,
        &join,
        is_closed,
        options.preserve_input_collinear,
        options.preserve_output_collinear,
    );
    proof {
        if paths@.len() == 0 {
            assert(sview(paths@).len() == 0);
        }
    }
    match swept {
        Some(raw) => {
            let extracted = crate::engine::shapes_from_engine(raw);
            let ghost raw_view = ssview(extracted@);
            let out = apply_output_options(extracted, options);
            proof {
                lemma_filter_shapes_kept(
                    oriented(raw_view, dir_code(options.output_direction)),
                    options.min_output_area as int,
                );
                if paths@.len() == 0 {
                    assert(sview(paths@).len() == 0);
                    assert(raw_view.len() == 0);
                    assert(oriented(raw_view, dir_code(options.output_direction)).len() == 0);
                    assert(ssview(out@).len() == 0);
                }
            }
            Some(out)
        },
        None => None,
    }
}

/// Whether the outline engine's coordinate budget admits the given shapes
/// and style.
pub open spec fn outline_fits_spec(shapes: Seq<Shape>, style: OutlineStyle) -> bool {
    outline_fits(
        ssview(shapes),
        style.outer_offset as int,
        style.inner_offset as int,
        outline_join_spec(style),
    )
}

/// The outline pipeline as a specification: the engine offsets the
/// boundaries, and the result is post-processed.
pub open spec fn outline_spec(
    shapes: Seq<Shape>,
    style: OutlineStyle,
    options: OverlayOptions,
) -> Seq<Seq<Seq<(int, int)>>> {
    post_process(
        outline_of(
            ssview(shapes),
            style.outer_offset as int,
            style.inner_offset as int,
            outline_join_spec(style),
            options.preserve_input_collinear,
            options.preserve_output_collinear,
        ),
        dir_code(options.output_direction),
        options.min_output_area as int,
    )
}

/// Offsets each shape's boundary: the outer offset moves outer
/// boundaries and the inner offset moves holes, positive values growing
/// the filled region, with corners joined per the style. Returns `None`
/// when the engine's conservative coordinate budget rejects the
/// operation; empty input yields an empty result.
pub fn outline(shapes: &Shapes, style: &OutlineStyle, options: &OverlayOptions) -> (r: Option<
    Shapes,
>)
    ensures
        r is Some <==> outline_fits_spec(shapes@, *style),
        r is Some ==> ssview(r->0@) == outline_spec(shapes@, *style, *options),
        r is Some ==> forall|i: int|
            0 <= i < ssview(r->0@).len() ==> (#[trigger] ssview(r->0@)[i]).len() > 0,
        r is Some ==> forall|i: int, j: int|
            0 <= i < ssview(r->0@).len() && 0 <= j < ssview(r->0@)[i].len() ==> keep_contour(
                #[trigger] ssview(r->0@)[i][j],
                options.min_output_area as int,
            ),
        shapes@.len() == 0 ==> r is Some && r->0@.len() == 0,
{
    let join = crate::engine::join_to_engine(&style.resolved_join());
    let engine_shapes = crate::engine::shapes_to_engine(shapes);
    let offset = crate::engine::outline_engine(
        &engine_shapes,
        style.outer_offset,
        style.inner_offset,
        &join,
        options.preserve_input_collinear,
        options.preserve_output_collinear,
    );
    proof {
        if shapes@.len() == 0 {
            assert(ssview(shapes@).len() == 0);
        }
    }
    match offset {
        Some(raw) => {
            let extracted = crate::engine::shapes_from_engine(raw);
            let ghost raw_view = ssview(extracted@);
            let out = apply_output_options(extracted, options);
            proof {
                lemma_filter_shapes_kept(
                    oriented(raw_view, dir_code(options.output_direction)),
                    options.min_output_area as int,
                );
                if shapes@.len() == 0 {
                    assert(raw_view.len() == 0);
                    assert(oriented(raw_view, dir_code(options.output_direction)).len() == 0);
                    assert(ssview(out@).len() == 0);
                }
            }
            Some(out)
        },
        None => None,
    }
}

} // verus!

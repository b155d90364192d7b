//! Configuration: solver selection, precision and output options.
//!
//! `CoreSolver` and `CorePrecision` are the engine's own configuration
//! records, declared to the verifier. The policy functions mirror the
//! engine's strategy resolution: `Auto` picks the linear list index for
//! small inputs and the tree or fragment index beyond fixed edge-count
//! thresholds, and the snapping radius grows geometrically with each
//! refinement pass, capped at the 32-bit engine's limit.

use vstd::prelude::*;

use crate::rules::CoreDirection;
use crate::rules::CoreStrategy;
use crate::rules::strategy_code;

verus! {

#[verifier::external_type_specification]
pub struct ExPrecision(i_overlay::core::solver::Precision);

#[verifier::external_type_specification]
pub struct ExMultithreadOptions(i_overlay::core::solver::MultithreadOptions);

#[verifier::external_type_specification]
pub struct ExSolver(i_overlay::core::solver::Solver);

#[verifier::external_type_specification]
pub struct ExClipRule(i_overlay::string::clip::ClipRule);

/// The engine's snapping-precision record: the squared snap radius starts at
/// `2^start` and the exponent grows by `progression` each refinement pass.
pub type CorePrecision = i_overlay::core::solver::Precision;

/// The engine's multithreading configuration.
pub type CoreMultithreading = i_overlay::core::solver::MultithreadOptions;

/// The engine's solver configuration: strategy, precision, multithreading.
pub type CoreSolver = i_overlay::core::solver::Solver;

/// The engine's polyline clip rule: `invert` keeps the outside instead of
/// the inside, `boundary_included` counts segments on the boundary as inside.
pub type CoreClipRule = i_overlay::string::clip::ClipRule;

/// The squared-snap-radius exponent cap for the 32-bit engine.
pub const MAX_RADIUS_EXPONENT: usize = 56;

/// Edge count below which `Auto` uses the list index when splitting segments.
pub const AUTO_LIST_SPLIT_LIMIT: usize = 4000;

/// Edge count below which `Auto` uses the list index when classifying fills.
pub const AUTO_LIST_FILL_LIMIT: usize = 8000;

/// Edge count above which the splitter partitions segments into fragments.
pub const FRAGMENTATION_LIMIT: usize = 16000;

/// Plain-value view of a solver: strategy code, precision start and
/// progression, and whether multithreading is enabled.
pub open spec fn solver_view(s: CoreSolver) -> (int, int, int, bool) {
    (
        strategy_code(s.strategy),
        s.precision.start as int,
        s.precision.progression as int,
        s.multithreading is Some,
    )
}

/// The solver the library uses when the caller does not supply one:
/// automatic strategy selection, high precision, multithreading enabled.
pub fn default_solver() -> (s: CoreSolver)
    ensures
        solver_view(s) == (3int, 0int, 1int, true),
{
    CoreSolver {
        strategy: CoreStrategy::Auto,
        precision: CorePrecision { start: 0, progression: 1 },
        multithreading: Some(CoreMultithreading { par_sort_min_size: 32768 }),
    }
}

/// Builds a solver from a strategy, a precision and a multithreading flag.
pub fn solver(strategy: CoreStrategy, precision: CorePrecision, multithreading: bool) -> (s: CoreSolver)
    ensures
        s.strategy == strategy,
        s.precision == precision,
        s.multithreading is Some <==> multithreading,
{
    CoreSolver {
        strategy,
        precision,
        multithreading: if multithreading {
            Some(CoreMultithreading { par_sort_min_size: 32768 })
        } else {
            None
        },
    }
}

/// The squared-snap-radius exponent after `pass` refinement passes: it
/// starts at the precision's `start`, grows by `progression` each pass, and
/// is capped at the engine's limit.
pub open spec fn radius_exponent(start: int, progression: int, pass: int) -> int {
    let raw = start + pass * progression;
    if raw > MAX_RADIUS_EXPONENT as int {
        MAX_RADIUS_EXPONENT as int
    } else {
        raw
    }
}

/// The squared snap radius used on the given refinement pass.
pub fn squared_snap_radius(precision: &CorePrecision, pass: usize) -> (r: u64)
    ensures
        r == 1u64 << radius_exponent(
            precision.start as int,
            precision.progression as int,
            pass as int,
        ),
{
    let step = pass.checked_mul(precision.progression).unwrap_or(usize::MAX);
    let raw = precision.start.checked_add(step).unwrap_or(usize::MAX);
    let exponent = if raw > MAX_RADIUS_EXPONENT {
        MAX_RADIUS_EXPONENT
    } else {
        raw
    };
    assert(exponent as int == radius_exponent(
        precision.start as int,
        precision.progression as int,
        pass as int,
    ));
    1u64 << (exponent as u64)
}

/// Whether the splitter uses the linear list index: always for `List`,
/// never for `Tree` or `Frag`, and below the list threshold for `Auto`.
pub fn is_list_split(solver: &CoreSolver, segment_count: usize) -> (b: bool)
    ensures
        b == match solver.strategy {
            CoreStrategy::List => true,
            CoreStrategy::Tree => false,
            CoreStrategy::Frag => false,
            CoreStrategy::Auto => segment_count < AUTO_LIST_SPLIT_LIMIT,
        },
{
    match solver.strategy {
        CoreStrategy::List => true,
        CoreStrategy::Tree => false,
        CoreStrategy::Frag => false,
        CoreStrategy::Auto => segment_count < AUTO_LIST_SPLIT_LIMIT,
    }
}

/// Whether fill classification uses the linear list index.
pub fn is_list_fill(solver: &CoreSolver, segment_count: usize) -> (b: bool)
    ensures
        b == match solver.strategy {
            CoreStrategy::List => true,
            CoreStrategy::Tree => false,
            CoreStrategy::Frag => false,
            CoreStrategy::Auto => segment_count < AUTO_LIST_FILL_LIMIT,
        },
{
    match solver.strategy {
        CoreStrategy::List => true,
        CoreStrategy::Tree => false,
        CoreStrategy::Frag => false,
        CoreStrategy::Auto => segment_count < AUTO_LIST_FILL_LIMIT,
    }
}

/// Whether the splitter partitions the segment set into spatial fragments:
/// above the fragmentation threshold, or always under the `Frag` strategy.
pub fn is_fragmentation_required(solver: &CoreSolver, segment_count: usize) -> (b: bool)
    ensures
        b == (segment_count > FRAGMENTATION_LIMIT || solver.strategy == CoreStrategy::Frag),
{
    let frag = match solver.strategy {
        CoreStrategy::Frag => true,
        CoreStrategy::List => false,
        CoreStrategy::Tree => false,
        CoreStrategy::Auto => false,
    };
    segment_count > FRAGMENTATION_LIMIT || frag
}

/// Options controlling the shape of extracted output.
#[derive(Clone, Copy)]
pub struct OverlayOptions {
    /// Keep collinear points of the input before the boolean operation.
    pub preserve_input_collinear: bool,
    /// Winding direction for output outer contours; holes get the opposite.
    pub output_direction: CoreDirection,
    /// Keep collinear points in the output after the boolean operation.
    pub preserve_output_collinear: bool,
    /// Contours whose absolute area is below this threshold are dropped.
    pub min_output_area: u64,
}

/// Plain-value view of the output options.
pub open spec fn options_view(o: OverlayOptions) -> (bool, int, bool, int) {
    (
        o.preserve_input_collinear,
        crate::rules::dir_code(o.output_direction),
        o.preserve_output_collinear,
        o.min_output_area as int,
    )
}

impl Default for OverlayOptions {
    /// Counter-clockwise outer contours, collinear points removed on both
    /// sides, no minimum-area filtering.
    fn default() -> (o: Self)
        ensures
            !o.preserve_input_collinear,
            o.output_direction == CoreDirection::CounterClockwise,
            !o.preserve_output_collinear,
            o.min_output_area == 0,
    {
        OverlayOptions {
            preserve_input_collinear: false,
            output_direction: CoreDirection::CounterClockwise,
            preserve_output_collinear: false,
            min_output_area: 0,
        }
    }
}

/// The clip rule used when the caller does not supply one: keep the inside,
/// boundary segments included.
pub fn default_clip_rule() -> (r: CoreClipRule)
    ensures
        !r.invert,
        r.boundary_included,
{
    CoreClipRule { invert: false, boundary_included: true }
}

} // verus!

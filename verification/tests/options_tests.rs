//! Solver policy, precision progression and style resolution.

use polyclip::mesh::CapStyle;
use polyclip::mesh::JoinStyle;
use polyclip::mesh::LineCap;
use polyclip::mesh::LineJoin;
use polyclip::mesh::StrokeStyle;
use polyclip::mesh::DEFAULT_STYLE_ANGLE;
use polyclip::geom::Point;
use polyclip::options::default_clip_rule;
use polyclip::options::default_solver;
use polyclip::options::is_fragmentation_required;
use polyclip::options::is_list_fill;
use polyclip::options::is_list_split;
use polyclip::options::solver;
use polyclip::options::squared_snap_radius;
use polyclip::options::CorePrecision;
use polyclip::options::OverlayOptions;
use polyclip::rules::CoreDirection;
use polyclip::rules::CoreStrategy;

#[test]
fn snap_radius_progression_doubles_each_pass() {
    let precision = CorePrecision { start: 0, progression: 1 };
    assert_eq!(squared_snap_radius(&precision, 0), 1);
    assert_eq!(squared_snap_radius(&precision, 1), 2);
    assert_eq!(squared_snap_radius(&precision, 3), 8);
}

#[test]
fn snap_radius_respects_start_and_step() {
    let precision = CorePrecision { start: 2, progression: 3 };
    assert_eq!(squared_snap_radius(&precision, 0), 4);
    assert_eq!(squared_snap_radius(&precision, 1), 32);
    let absolute = CorePrecision { start: 0, progression: 0 };
    assert_eq!(squared_snap_radius(&absolute, 7), 1);
}

#[test]
fn snap_radius_is_capped_at_the_engine_limit() {
    let precision = CorePrecision { start: 50, progression: 10 };
    assert_eq!(squared_snap_radius(&precision, 0), 1u64 << 50);
    assert_eq!(squared_snap_radius(&precision, 1), 1u64 << 56);
    assert_eq!(squared_snap_radius(&precision, 1000), 1u64 << 56);
    let huge = CorePrecision { start: usize::MAX, progression: usize::MAX };
    assert_eq!(squared_snap_radius(&huge, usize::MAX), 1u64 << 56);
}

#[test]
fn auto_strategy_picks_list_below_the_thresholds() {
    let auto = default_solver();
    assert!(is_list_split(&auto, 3999));
    assert!(!is_list_split(&auto, 4000));
    assert!(is_list_fill(&auto, 7999));
    assert!(!is_list_fill(&auto, 8000));
    assert!(!is_fragmentation_required(&auto, 16000));
    assert!(is_fragmentation_required(&auto, 16001));
}

#[test]
fn explicit_strategies_override_the_size_heuristic() {
    let precision = CorePrecision { start: 0, progression: 1 };
    let list = solver(CoreStrategy::List, precision, true);
    let tree = solver(CoreStrategy::Tree, precision, true);
    let frag = solver(CoreStrategy::Frag, precision, false);
    assert!(is_list_split(&list, 1_000_000));
    assert!(!is_list_split(&tree, 1));
    assert!(!is_list_fill(&frag, 1));
    assert!(is_fragmentation_required(&frag, 1));
    assert!(!is_fragmentation_required(&tree, 1));
}

#[test]
fn default_configuration_values() {
    let options = OverlayOptions::default();
    assert!(!options.preserve_input_collinear);
    assert!(!options.preserve_output_collinear);
    assert!(matches!(options.output_direction, CoreDirection::CounterClockwise));
    assert_eq!(options.min_output_area, 0);
    let clip_rule = default_clip_rule();
    assert!(!clip_rule.invert);
    assert!(clip_rule.boundary_included);
    let s = default_solver();
    assert!(matches!(s.strategy, CoreStrategy::Auto));
    assert_eq!(s.precision.start, 0);
    assert_eq!(s.precision.progression, 1);
    assert!(s.multithreading.is_some());
}

#[test]
fn stroke_style_resolution_uses_caps_and_angles() {
    let mut style = StrokeStyle::new(100);
    assert!(matches!(style.resolved_start_cap(), CapStyle::Butt));
    assert!(matches!(style.resolved_join(), JoinStyle::Bevel));
    style.start_cap = LineCap::Round;
    style.round_cap_angle = 1234;
    assert!(matches!(style.resolved_start_cap(), CapStyle::Round(1234)));
    style.end_cap = LineCap::Square;
    assert!(matches!(style.resolved_end_cap(), CapStyle::Square));
    style.join = LineJoin::Miter;
    style.join_angle = 777;
    assert!(matches!(style.resolved_join(), JoinStyle::Miter(777)));
    assert_eq!(StrokeStyle::new(5).round_cap_angle, DEFAULT_STYLE_ANGLE);
}

#[test]
fn custom_cap_points_override_the_cap_style() {
    let mut style = StrokeStyle::new(100);
    style.start_cap = LineCap::Round;
    style.start_cap_points = Some(vec![Point::new(0, -50), Point::new(50, 0), Point::new(0, 50)]);
    match style.resolved_start_cap() {
        CapStyle::Custom(points) => {
            assert_eq!(points.len(), 3);
            assert_eq!(points[1], Point::new(50, 0));
        },
        other => panic!("expected a custom cap, got {:?}", other),
    }
    // The end cap is unaffected by the start override.
    assert!(matches!(style.resolved_end_cap(), CapStyle::Butt));
}

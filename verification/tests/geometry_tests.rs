//! Areas, normalisation, validation, the boundary codec and ranges.

use polyclip::area::contour_double_area;
use polyclip::area::contour_abs_double_area;
use polyclip::area::shapes_total_area;
use polyclip::boundary::paths_from_raw;
use polyclip::boundary::paths_to_raw;
use polyclip::boundary::shapes_from_raw;
use polyclip::boundary::shapes_to_raw;
use polyclip::geom::contour_in_range_exec;
use polyclip::geom::paths_in_range_exec;
use polyclip::geom::point_in_range_exec;
use polyclip::geom::shapes_in_range_exec;
use polyclip::geom::Contour;
use polyclip::geom::Point;
use polyclip::geom::Shapes;
use polyclip::normalize::clean_contour;
use polyclip::normalize::normalize_shapes;
use polyclip::normalize::validate_shapes;
use polyclip::normalize::GeometryError;

fn pts(v: &[(i32, i32)]) -> Contour {
    v.iter().map(|&(x, y)| Point::new(x, y)).collect()
}

#[test]
fn triangle_signed_area_follows_winding() {
    let ccw = pts(&[(0, 0), (4, 0), (0, 4)]);
    assert_eq!(contour_double_area(&ccw), 16);
    let cw: Contour = ccw.iter().rev().cloned().collect();
    assert_eq!(contour_double_area(&cw), -16);
    assert_eq!(contour_abs_double_area(&cw), 16);
}

#[test]
fn degenerate_contours_have_zero_area() {
    assert_eq!(contour_double_area(&pts(&[])), 0);
    assert_eq!(contour_double_area(&pts(&[(3, 5)])), 0);
    assert_eq!(contour_double_area(&pts(&[(3, 5), (9, 2)])), 0);
}

#[test]
fn shapes_total_area_sums_all_contours() {
    let shapes = vec![
        vec![pts(&[(0, 0), (4, 0), (0, 4)])],
        vec![pts(&[(0, 0), (0, 2), (2, 2), (2, 0)])],
    ];
    // 16 for the triangle plus 8 for the clockwise square.
    assert_eq!(shapes_total_area(&shapes), Some(24));
}

#[test]
fn extreme_coordinates_do_not_overflow_area() {
    let c = pts(&[
        (i32::MIN, i32::MIN),
        (i32::MAX, i32::MIN),
        (i32::MAX, i32::MAX),
        (i32::MIN, i32::MAX),
    ]);
    // The full coordinate square: side 2^32 - 1, double area 2*(2^32-1)^2.
    let side = (i32::MAX as i128) - (i32::MIN as i128);
    assert_eq!(contour_abs_double_area(&c), (2 * side * side) as u128);
}

#[test]
fn clean_contour_removes_duplicates_and_closing_point() {
    let messy = pts(&[(0, 0), (0, 0), (1, 0), (1, 1), (1, 1), (1, 1), (0, 1), (0, 0)]);
    let clean = clean_contour(&messy);
    assert_eq!(clean, pts(&[(0, 0), (1, 0), (1, 1), (0, 1)]));
}

#[test]
fn normalize_drops_degenerate_contours_and_empty_shapes() {
    let shapes: Shapes = vec![
        vec![pts(&[(0, 0), (5, 5), (5, 5), (0, 0)])],
        vec![pts(&[(0, 0), (4, 0), (0, 4), (0, 0)]), pts(&[(1, 1), (1, 1)])],
    ];
    let normalized = normalize_shapes(&shapes);
    assert_eq!(normalized, vec![vec![pts(&[(0, 0), (4, 0), (0, 4)])]]);
}

#[test]
fn normalize_is_idempotent() {
    let shapes: Shapes = vec![vec![
        pts(&[(0, 0), (0, 0), (4, 0), (0, 4)]),
        pts(&[(9, 9), (9, 9), (9, 9)]),
    ]];
    let once = normalize_shapes(&shapes);
    let twice = normalize_shapes(&once);
    assert_eq!(once, twice);
}

#[test]
fn normalized_shapes_always_validate() {
    let messy: Shapes = vec![
        vec![pts(&[(0, 0), (5, 5)])],
        vec![pts(&[(0, 0), (0, 0), (4, 0), (0, 4), (0, 0)]), pts(&[(1, 1), (1, 1)])],
    ];
    let normalized = normalize_shapes(&messy);
    assert_eq!(validate_shapes(&normalized), Ok(()));
}

#[test]
fn validate_accepts_well_formed_shapes() {
    let shapes = vec![vec![pts(&[(0, 0), (4, 0), (0, 4)])]];
    assert_eq!(validate_shapes(&shapes), Ok(()));
}

#[test]
fn validate_reports_empty_shape() {
    let shapes: Shapes = vec![vec![pts(&[(0, 0), (4, 0), (0, 4)])], vec![]];
    assert_eq!(validate_shapes(&shapes), Err(GeometryError::EmptyShape { shape: 1 }));
}

#[test]
fn validate_reports_short_contour() {
    let shapes: Shapes = vec![vec![pts(&[(0, 0), (4, 0), (0, 4)]), pts(&[(1, 1), (2, 2)])]];
    assert_eq!(
        validate_shapes(&shapes),
        Err(GeometryError::TooFewPoints { shape: 0, contour: 1 })
    );
}

#[test]
fn boundary_round_trip_preserves_shapes_exactly() {
    let shapes: Shapes = vec![
        vec![pts(&[(0, 0), (4, 0), (0, 4)]), pts(&[(1, 1), (2, 1), (1, 2)])],
        vec![pts(&[(-7, 3), (5, -9), (12, 12), (0, 8)])],
    ];
    let raw = shapes_to_raw(&shapes);
    assert_eq!(
        raw,
        vec![
            vec![vec![(0, 0), (4, 0), (0, 4)], vec![(1, 1), (2, 1), (1, 2)]],
            vec![vec![(-7, 3), (5, -9), (12, 12), (0, 8)]],
        ]
    );
    let back = shapes_from_raw(&raw);
    assert_eq!(back, shapes);
}

#[test]
fn boundary_round_trip_preserves_paths_exactly() {
    let paths = vec![pts(&[(0, 0), (10, 0)]), pts(&[(3, 4), (5, 6), (7, 8)])];
    let raw = paths_to_raw(&paths);
    assert_eq!(raw, vec![vec![(0, 0), (10, 0)], vec![(3, 4), (5, 6), (7, 8)]]);
    let back = paths_from_raw(&raw);
    assert_eq!(back, paths);
}

#[test]
fn range_checks_accept_engine_range_and_reject_beyond() {
    assert!(point_in_range_exec(&Point::new(0x3fff_ffff, -0x3fff_ffff)));
    assert!(!point_in_range_exec(&Point::new(0x4000_0000, 0)));
    assert!(!point_in_range_exec(&Point::new(0, -0x4000_0000)));
    assert!(contour_in_range_exec(&pts(&[(0, 0), (1, 1)])));
    assert!(!contour_in_range_exec(&pts(&[(0, 0), (0x4000_0000, 1)])));
    assert!(shapes_in_range_exec(&vec![vec![pts(&[(5, 5), (6, 6), (7, 5)])]]));
    assert!(!shapes_in_range_exec(&vec![vec![pts(&[(5, 5), (i32::MAX, 6), (7, 5)])]]));
    assert!(paths_in_range_exec(&vec![pts(&[(1, 2), (3, 4)])]));
}

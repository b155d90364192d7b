//! Polyline clipping and shape slicing scenarios.

use polyclip::area::shapes_total_area;
use polyclip::geom::Contour;
use polyclip::geom::Paths;
use polyclip::geom::Point;
use polyclip::geom::Shapes;
use polyclip::ops::clip_by;
use polyclip::ops::slice_by;
use polyclip::options::default_clip_rule;
use polyclip::options::default_solver;
use polyclip::options::CoreClipRule;
use polyclip::options::OverlayOptions;
use polyclip::rules::CoreFillRule;

fn square(x0: i32, y0: i32, side: i32) -> Contour {
    vec![
        Point::new(x0, y0),
        Point::new(x0, y0 + side),
        Point::new(x0 + side, y0 + side),
        Point::new(x0 + side, y0),
    ]
}

fn as_pairs(paths: &Paths) -> Vec<Vec<(i32, i32)>> {
    paths.iter().map(|p| p.iter().map(|q| (q.x, q.y)).collect()).collect()
}

#[test]
fn clip_keeps_segment_inside_square() {
    let paths = vec![vec![Point::new(-1, 1), Point::new(3, 1)]];
    let shapes = vec![vec![square(0, 0, 2)]];
    let result = clip_by(
        &paths,
        &shapes,
        CoreFillRule::EvenOdd,
        default_clip_rule(),
        default_solver(),
    );
    assert_eq!(as_pairs(&result), vec![vec![(0, 1), (2, 1)]]);
}

#[test]
fn inverted_clip_keeps_segments_outside_square() {
    let paths = vec![vec![Point::new(-1, 1), Point::new(3, 1)]];
    let shapes = vec![vec![square(0, 0, 2)]];
    let rule = CoreClipRule { invert: true, boundary_included: false };
    let result = clip_by(&paths, &shapes, CoreFillRule::EvenOdd, rule, default_solver());
    assert_eq!(result.len(), 2);
    for path in &result {
        for p in path {
            assert!(p.x <= 0 || p.x >= 2);
        }
    }
}

#[test]
fn clip_of_fully_inside_line_returns_it_whole() {
    let paths = vec![vec![Point::new(1, 1), Point::new(3, 1)]];
    let shapes = vec![vec![square(0, 0, 4)]];
    let result = clip_by(
        &paths,
        &shapes,
        CoreFillRule::EvenOdd,
        default_clip_rule(),
        default_solver(),
    );
    assert_eq!(as_pairs(&result), vec![vec![(1, 1), (3, 1)]]);
}

#[test]
fn slice_splits_square_into_two_halves() {
    let shapes = vec![vec![square(0, 0, 2)]];
    let paths = vec![vec![Point::new(0, 1), Point::new(2, 1)]];
    let result = slice_by(
        &shapes,
        &paths,
        CoreFillRule::EvenOdd,
        &OverlayOptions::default(),
        default_solver(),
    );
    assert_eq!(result.len(), 2);
    // Both halves together cover the whole square: area 4, double 8.
    assert_eq!(shapes_total_area(&result).unwrap(), 8);
    for shape in &result {
        assert_eq!(shapes_total_area(&vec![shape.clone()]).unwrap(), 4);
    }
}

#[test]
fn slice_with_no_cut_returns_whole_shape() {
    let shapes = vec![vec![square(0, 0, 2)]];
    let paths: Paths = Vec::new();
    let result = slice_by(
        &shapes,
        &paths,
        CoreFillRule::EvenOdd,
        &OverlayOptions::default(),
        default_solver(),
    );
    assert_eq!(shapes_total_area(&result).unwrap(), 8);
    let empty_shapes: Shapes = Vec::new();
    let empty = slice_by(
        &empty_shapes,
        &paths,
        CoreFillRule::EvenOdd,
        &OverlayOptions::default(),
        default_solver(),
    );
    assert!(empty.is_empty());
}

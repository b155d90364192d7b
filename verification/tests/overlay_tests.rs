//! Boolean overlay scenarios: concrete geometry through the full pipeline.

use polyclip::area::shapes_total_area;
use polyclip::geom::Contour;
use polyclip::geom::Point;
use polyclip::geom::Shapes;
use polyclip::ops::overlay;
use polyclip::ops::simplify_shape;
use polyclip::ops::OverlayGraph;
use polyclip::options::default_solver;
use polyclip::options::OverlayOptions;
use polyclip::rules::CoreDirection;
use polyclip::rules::CoreFillRule;
use polyclip::rules::CoreOverlayRule;

fn square(x0: i32, y0: i32, side: i32) -> Contour {
    vec![
        Point::new(x0, y0),
        Point::new(x0, y0 + side),
        Point::new(x0 + side, y0 + side),
        Point::new(x0 + side, y0),
    ]
}

fn one_shape(contour: Contour) -> Shapes {
    vec![vec![contour]]
}

fn total_double_area(shapes: &Shapes) -> u128 {
    shapes_total_area(shapes).expect("area sum fits")
}

fn sorted_points(contour: &Contour) -> Vec<(i32, i32)> {
    let mut pts: Vec<(i32, i32)> = contour.iter().map(|p| (p.x, p.y)).collect();
    pts.sort();
    pts
}

#[test]
fn union_of_overlapping_squares_has_area_seven() {
    let subject = one_shape(square(0, 0, 2));
    let clip = one_shape(square(1, 1, 2));
    let result = overlay(
        &subject,
        &clip,
        CoreOverlayRule::Union,
        CoreFillRule::EvenOdd,
        &OverlayOptions::default(),
        default_solver(),
    );
    assert_eq!(result.len(), 1);
    assert_eq!(result[0].len(), 1);
    assert_eq!(result[0][0].len(), 8);
    // Area 7 = 4 + 4 - 1 of overlap; double area 14.
    assert_eq!(total_double_area(&result), 14);
}

#[test]
fn intersection_of_overlapping_squares_is_unit_square() {
    let subject = one_shape(square(0, 0, 2));
    let clip = one_shape(square(1, 1, 2));
    let result = overlay(
        &subject,
        &clip,
        CoreOverlayRule::Intersect,
        CoreFillRule::EvenOdd,
        &OverlayOptions::default(),
        default_solver(),
    );
    assert_eq!(result.len(), 1);
    assert_eq!(result[0].len(), 1);
    assert_eq!(result[0][0].len(), 4);
    assert_eq!(total_double_area(&result), 2);
    assert_eq!(sorted_points(&result[0][0]), vec![(1, 1), (1, 2), (2, 1), (2, 2)]);
}

#[test]
fn union_area_bounds_and_intersection_area_bounds() {
    let subject = one_shape(square(0, 0, 2));
    let clip = one_shape(square(1, 1, 2));
    let options = OverlayOptions::default();
    let union = overlay(
        &subject,
        &clip,
        CoreOverlayRule::Union,
        CoreFillRule::EvenOdd,
        &options,
        default_solver(),
    );
    let intersection = overlay(
        &subject,
        &clip,
        CoreOverlayRule::Intersect,
        CoreFillRule::EvenOdd,
        &options,
        default_solver(),
    );
    let subject_area = total_double_area(&subject);
    let clip_area = total_double_area(&clip);
    assert!(total_double_area(&union) >= subject_area.max(clip_area));
    assert!(total_double_area(&intersection) <= subject_area.min(clip_area));
}

#[test]
fn xor_area_is_union_minus_intersection() {
    let subject = one_shape(square(0, 0, 2));
    let clip = one_shape(square(1, 1, 2));
    let options = OverlayOptions::default();
    let solver = default_solver();
    for fill in [
        CoreFillRule::EvenOdd,
        CoreFillRule::NonZero,
        CoreFillRule::Positive,
    ] {
        let union = overlay(&subject, &clip, CoreOverlayRule::Union, fill, &options, solver);
        let inter = overlay(&subject, &clip, CoreOverlayRule::Intersect, fill, &options, solver);
        let xor = overlay(&subject, &clip, CoreOverlayRule::Xor, fill, &options, solver);
        assert_eq!(
            total_double_area(&xor),
            total_double_area(&union) - total_double_area(&inter)
        );
    }
}

#[test]
fn difference_intersection_inverse_difference_partition_union() {
    let subject = one_shape(square(0, 0, 2));
    let clip = one_shape(square(1, 1, 2));
    let options = OverlayOptions::default();
    let solver = default_solver();
    let fill = CoreFillRule::EvenOdd;
    let union = overlay(&subject, &clip, CoreOverlayRule::Union, fill, &options, solver);
    let diff = overlay(&subject, &clip, CoreOverlayRule::Difference, fill, &options, solver);
    let inter = overlay(&subject, &clip, CoreOverlayRule::Intersect, fill, &options, solver);
    let inv = overlay(
        &subject,
        &clip,
        CoreOverlayRule::InverseDifference,
        fill,
        &options,
        solver,
    );
    assert_eq!(
        total_double_area(&union),
        total_double_area(&diff) + total_double_area(&inter) + total_double_area(&inv)
    );
}

#[test]
fn simplify_resolves_self_intersection_and_is_idempotent() {
    // A figure-eight contour crossing itself at (1, 1).
    let bowtie = one_shape(vec![
        Point::new(0, 0),
        Point::new(2, 2),
        Point::new(2, 0),
        Point::new(0, 2),
    ]);
    let options = OverlayOptions::default();
    let solver = default_solver();
    let once = simplify_shape(&bowtie, CoreFillRule::EvenOdd, &options, solver);
    assert_eq!(once.len(), 2);
    let twice = simplify_shape(&once, CoreFillRule::EvenOdd, &options, solver);
    assert_eq!(once, twice);
}

#[test]
fn min_output_area_drops_small_contours() {
    let subject = vec![vec![square(0, 0, 4)], vec![square(10, 10, 1)]];
    let clip: Shapes = Vec::new();
    let mut options = OverlayOptions::default();
    options.min_output_area = 2;
    let result = overlay(
        &subject,
        &clip,
        CoreOverlayRule::Subject,
        CoreFillRule::EvenOdd,
        &options,
        default_solver(),
    );
    assert_eq!(result.len(), 1);
    assert_eq!(total_double_area(&result), 32);
    for shape in &result {
        for contour in shape {
            assert!(contour.len() >= 3);
            let double_area =
                polyclip::area::shapes_total_area(&vec![vec![contour.clone()]]).unwrap();
            assert!(double_area / 2 >= 2);
        }
    }
}

#[test]
fn clockwise_output_direction_reverses_winding() {
    let subject = one_shape(square(0, 0, 2));
    let clip: Shapes = Vec::new();
    let mut options = OverlayOptions::default();
    options.output_direction = CoreDirection::Clockwise;
    let result = overlay(
        &subject,
        &clip,
        CoreOverlayRule::Subject,
        CoreFillRule::EvenOdd,
        &options,
        default_solver(),
    );
    assert_eq!(result.len(), 1);
    let signed = polyclip::area::contour_double_area(&result[0][0]);
    assert!(signed < 0);
    let ccw = overlay(
        &subject,
        &clip,
        CoreOverlayRule::Subject,
        CoreFillRule::EvenOdd,
        &OverlayOptions::default(),
        default_solver(),
    );
    let signed_ccw = polyclip::area::contour_double_area(&ccw[0][0]);
    assert!(signed_ccw > 0);
    assert_eq!(signed, -signed_ccw);
}

#[test]
fn overlay_graph_extractions_match_direct_overlays() {
    let subject = one_shape(square(0, 0, 2));
    let clip = one_shape(square(1, 1, 2));
    let options = OverlayOptions::default();
    let solver = default_solver();
    let graph = OverlayGraph::new(
        subject.clone(),
        clip.clone(),
        CoreFillRule::EvenOdd,
        options,
        solver,
    );
    for rule in [
        CoreOverlayRule::Union,
        CoreOverlayRule::Intersect,
        CoreOverlayRule::Difference,
        CoreOverlayRule::Xor,
    ] {
        let from_graph = graph.extract_shapes(rule);
        let direct = overlay(&subject, &clip, rule, CoreFillRule::EvenOdd, &options, solver);
        assert_eq!(from_graph, direct);
    }
}

#[test]
fn empty_operands_yield_empty_result() {
    let empty: Shapes = Vec::new();
    let result = overlay(
        &empty,
        &empty,
        CoreOverlayRule::Union,
        CoreFillRule::EvenOdd,
        &OverlayOptions::default(),
        default_solver(),
    );
    assert!(result.is_empty());
}

#[test]
fn degenerate_subject_contour_yields_empty_result() {
    let subject = vec![vec![vec![Point::new(0, 0), Point::new(5, 5)]]];
    let clip: Shapes = Vec::new();
    let result = overlay(
        &subject,
        &clip,
        CoreOverlayRule::Subject,
        CoreFillRule::EvenOdd,
        &OverlayOptions::default(),
        default_solver(),
    );
    assert!(result.is_empty());
}

fn orient(a: Point, b: Point, c: Point) -> i64 {
    let abx = (b.x - a.x) as i64;
    let aby = (b.y - a.y) as i64;
    let acx = (c.x - a.x) as i64;
    let acy = (c.y - a.y) as i64;
    abx * acy - aby * acx
}

fn on_segment(a: Point, b: Point, p: Point) -> bool {
    orient(a, b, p) == 0
        && p.x >= a.x.min(b.x)
        && p.x <= a.x.max(b.x)
        && p.y >= a.y.min(b.y)
        && p.y <= a.y.max(b.y)
}

/// Whether the closed segments `ab` and `cd` share any point.
fn segments_touch(a: Point, b: Point, c: Point, d: Point) -> bool {
    let d1 = orient(c, d, a);
    let d2 = orient(c, d, b);
    let d3 = orient(a, b, c);
    let d4 = orient(a, b, d);
    if ((d1 > 0 && d2 < 0) || (d1 < 0 && d2 > 0)) && ((d3 > 0 && d4 < 0) || (d3 < 0 && d4 > 0)) {
        return true;
    }
    on_segment(c, d, a) || on_segment(c, d, b) || on_segment(a, b, c) || on_segment(a, b, d)
}

/// A contour is simple if no two non-adjacent edges share any point.
fn assert_contour_simple(contour: &Contour) {
    let n = contour.len();
    assert!(n >= 3);
    for i in 0..n {
        for j in (i + 1)..n {
            if j == i + 1 || (i == 0 && j == n - 1) {
                continue;
            }
            let a = contour[i];
            let b = contour[(i + 1) % n];
            let c = contour[j];
            let d = contour[(j + 1) % n];
            assert!(
                !segments_touch(a, b, c, d),
                "edges {} and {} of {:?} touch",
                i,
                j,
                contour
            );
        }
    }
}

#[test]
fn output_contours_are_simple() {
    let subject = one_shape(square(0, 0, 2));
    let clip = one_shape(square(1, 1, 2));
    let bowtie = one_shape(vec![
        Point::new(0, 0),
        Point::new(2, 2),
        Point::new(2, 0),
        Point::new(0, 2),
    ]);
    let options = OverlayOptions::default();
    let solver = default_solver();
    for rule in [
        CoreOverlayRule::Union,
        CoreOverlayRule::Intersect,
        CoreOverlayRule::Difference,
        CoreOverlayRule::Xor,
    ] {
        let result = overlay(&subject, &clip, rule, CoreFillRule::EvenOdd, &options, solver);
        for shape in &result {
            for contour in shape {
                assert_contour_simple(contour);
            }
        }
    }
    // The self-intersecting input is emitted as simple contours.
    let resolved = simplify_shape(&bowtie, CoreFillRule::EvenOdd, &options, solver);
    for shape in &resolved {
        for contour in shape {
            assert_contour_simple(contour);
        }
    }
}

#[test]
fn every_output_contour_has_three_points_and_holes_lie_inside() {
    // A square with a square hole: the hole winds opposite to the outer
    // boundary, so under the non-zero rule its interior is unfilled.
    let hole = {
        let mut h = square(2, 2, 2);
        h.reverse();
        h
    };
    let subject = vec![vec![square(0, 0, 8), hole]];
    let clip: Shapes = Vec::new();
    let result = overlay(
        &subject,
        &clip,
        CoreOverlayRule::Subject,
        CoreFillRule::NonZero,
        &OverlayOptions::default(),
        default_solver(),
    );
    assert_eq!(result.len(), 1);
    assert_eq!(result[0].len(), 2);
    for contour in &result[0] {
        assert!(contour.len() >= 3);
    }
    // The hole's points lie strictly inside the outer boundary's box.
    for p in &result[0][1] {
        assert!(p.x > 0 && p.x < 8 && p.y > 0 && p.y < 8);
    }
}

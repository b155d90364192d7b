//! Stroke and outline scenarios on integer geometry.

use polyclip::area::shapes_total_area;
use polyclip::geom::Contour;
use polyclip::geom::Paths;
use polyclip::geom::Point;
use polyclip::mesh::LineCap;
use polyclip::mesh::LineJoin;
use polyclip::mesh::OutlineStyle;
use polyclip::mesh::StrokeStyle;
use polyclip::ops::outline;
use polyclip::ops::stroke;
use polyclip::options::OverlayOptions;

fn square(x0: i32, y0: i32, side: i32) -> Contour {
    vec![
        Point::new(x0, y0),
        Point::new(x0, y0 + side),
        Point::new(x0 + side, y0 + side),
        Point::new(x0 + side, y0),
    ]
}

#[test]
fn stroke_of_bent_path_approximates_band_area() {
    // An L-shaped open path of length 20480 in grid units, stroked with a
    // band of width 2048, butt caps and a bevel join: one closed shape with
    // a single contour and exactly one beveled corner.
    let paths = vec![vec![
        Point::new(0, 0),
        Point::new(10240, 0),
        Point::new(10240, 10240),
    ]];
    let style = StrokeStyle::new(2048);
    let result = stroke(&paths, &style, false, &OverlayOptions::default())
        .expect("coordinates fit the engine budget");
    assert_eq!(result.len(), 1);
    assert_eq!(result[0].len(), 1);
    // Butt caps and one bevel corner: 2 points per cap, 2 on the beveled
    // outer corner, 1 on the inner corner.
    assert_eq!(result[0][0].len(), 7);
    let band = 2048u128 * 20480u128;
    let double_area = shapes_total_area(&result).unwrap();
    // The band area, less the corner overlap and the bevel cut.
    assert!(double_area < 2 * band);
    assert!(double_area > 2 * band - 2 * 2048 * 2048);
}

#[test]
fn stroke_of_empty_input_is_empty() {
    let paths: Paths = Vec::new();
    let style = StrokeStyle::new(2048);
    let result = stroke(&paths, &style, false, &OverlayOptions::default()).unwrap();
    assert!(result.is_empty());
}

#[test]
fn stroke_with_tiny_width_produces_no_geometry() {
    // Radii of at most one grid unit produce no geometry.
    let paths = vec![vec![Point::new(0, 0), Point::new(100, 0)]];
    let style = StrokeStyle::new(1);
    let result = stroke(&paths, &style, false, &OverlayOptions::default()).unwrap();
    assert!(result.is_empty());
}

#[test]
fn stroke_far_out_of_range_is_rejected() {
    let paths = vec![vec![
        Point::new(0x3fff_0000, 0),
        Point::new(0x3fff_ff00, 0),
    ]];
    let mut style = StrokeStyle::new(0x1000_0000);
    style.start_cap = LineCap::Square;
    style.end_cap = LineCap::Square;
    assert!(stroke(&paths, &style, false, &OverlayOptions::default()).is_none());
}

#[test]
fn round_caps_add_more_points_than_butt_caps() {
    let paths = vec![vec![Point::new(0, 0), Point::new(20000, 0)]];
    let butt = StrokeStyle::new(4096);
    let round = {
        let mut s = StrokeStyle::new(4096);
        s.start_cap = LineCap::Round;
        s.end_cap = LineCap::Round;
        s.round_cap_angle = 214_748_365;
        s
    };
    let opts = OverlayOptions::default();
    let butt_result = stroke(&paths, &butt, false, &opts).unwrap();
    let round_result = stroke(&paths, &round, false, &opts).unwrap();
    assert_eq!(butt_result[0][0].len(), 4);
    assert!(round_result[0][0].len() > butt_result[0][0].len());
    // The rounded band covers more area than the butt band minus nothing,
    // but less than the square-capped bounding band.
    let butt_area = shapes_total_area(&butt_result).unwrap();
    let round_area = shapes_total_area(&round_result).unwrap();
    assert!(round_area > butt_area);
}

#[test]
fn custom_cap_points_change_the_stroke() {
    let paths = vec![vec![Point::new(0, 0), Point::new(20000, 0)]];
    let custom = {
        let mut s = StrokeStyle::new(4096);
        // A triangular spike extending one radius beyond the path start.
        s.start_cap_points = Some(vec![
            Point::new(0, -2048),
            Point::new(2048, 0),
            Point::new(0, 2048),
        ]);
        s
    };
    let plain = StrokeStyle::new(4096);
    let opts = OverlayOptions::default();
    let custom_result = stroke(&paths, &custom, false, &opts).unwrap();
    let plain_result = stroke(&paths, &plain, false, &opts).unwrap();
    let custom_area = shapes_total_area(&custom_result).unwrap();
    let plain_area = shapes_total_area(&plain_result).unwrap();
    // The spike adds half of a 4096-wide, 2048-deep triangle.
    assert_eq!(custom_area - plain_area, 2 * 2048 * 2048);
}

#[test]
fn outline_with_miter_joins_grows_square_exactly() {
    // A counter-clockwise square of side 4096, offset outward by 1024 with
    // miter joins: the corners stay sharp, so the result is the exact
    // square of side 6144.
    let shape = {
        let mut c = square(0, 0, 4096);
        c.reverse();
        vec![vec![c]]
    };
    let style = {
        let mut s = OutlineStyle::new(1024);
        s.join = LineJoin::Miter;
        s
    };
    let result = outline(&shape, &style, &OverlayOptions::default())
        .expect("coordinates fit the engine budget");
    assert_eq!(result.len(), 1);
    assert_eq!(result[0].len(), 1);
    assert_eq!(result[0][0].len(), 4);
    assert_eq!(shapes_total_area(&result).unwrap(), 2 * 6144 * 6144);
}

#[test]
fn negative_outline_offset_shrinks_the_square() {
    let shape = {
        let mut c = square(0, 0, 4096);
        c.reverse();
        vec![vec![c]]
    };
    let style = OutlineStyle::new(-1024);
    let result = outline(&shape, &style, &OverlayOptions::default())
        .expect("coordinates fit the engine budget");
    assert_eq!(result.len(), 1);
    assert_eq!(result[0].len(), 1);
    assert_eq!(shapes_total_area(&result).unwrap(), 2 * 2048 * 2048);
}

#[test]
fn outline_with_bevel_joins_cuts_the_corners() {
    let shape = {
        let mut c = square(0, 0, 4096);
        c.reverse();
        vec![vec![c]]
    };
    // The default join is bevel: each of the four corners is cut, giving
    // eight points and the grown area less the four corner triangles.
    let style = OutlineStyle::new(1024);
    let result = outline(&shape, &style, &OverlayOptions::default()).unwrap();
    assert_eq!(result.len(), 1);
    assert_eq!(result[0][0].len(), 8);
    let side = 4096u128;
    let offset = 1024u128;
    let expected = side * side + 4 * side * offset + 2 * offset * offset;
    assert_eq!(shapes_total_area(&result).unwrap(), 2 * expected);
}

#[test]
fn outline_far_out_of_range_is_rejected() {
    let shape = {
        let mut c = square(0x3000_0000, 0x3000_0000, 0xfff_0000);
        c.reverse();
        vec![vec![c]]
    };
    let style = OutlineStyle::new(0x1000_0000);
    assert!(outline(&shape, &style, &OverlayOptions::default()).is_none());
}

#[test]
fn outline_of_empty_input_is_empty() {
    let shapes = Vec::new();
    let style = OutlineStyle::new(1024);
    let result = outline(&shapes, &style, &OverlayOptions::default()).unwrap();
    assert!(result.is_empty());
}

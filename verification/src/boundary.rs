//! Boundary codec: nested coordinate-pair lists.
//!
//! Geometry crosses the crate boundary as nested lists of `(x, y)` pairs,
//! layered shapes > shape > contour > point for shape collections and
//! paths > path > point for polylines. The conversions below are exact and
//! lossless in both directions; the round-trip lemmas state that converting
//! across the boundary and back is the identity.

use vstd::prelude::*;

use crate::geom::Contour;
use crate::geom::Path;
use crate::geom::Paths;
use crate::geom::Point;
use crate::geom::Shape;
use crate::geom::Shapes;
use crate::geom::shape_seq;
use crate::geom::shapes_seq;

verus! {

/// A boundary-representation point: an `(x, y)` pair.
pub type RawPoint = (i32, i32);

/// A boundary-representation contour or path.
pub type RawContour = Vec<RawPoint>;

/// A boundary-representation shape.
pub type RawShape = Vec<RawContour>;

/// A boundary-representation shape collection.
pub type RawShapes = Vec<RawShape>;

/// A boundary-representation path collection.
pub type RawPaths = Vec<RawContour>;

/// A raw shape, or raw path collection, as nested pair sequences.
pub open spec fn raw_shape_seq(s: Seq<RawContour>) -> Seq<Seq<RawPoint>> {
    Seq::new(s.len(), |i: int| s[i]@)
}

/// A raw shape collection as nested pair sequences.
pub open spec fn raw_shapes_seq(s: Seq<RawShape>) -> Seq<Seq<Seq<RawPoint>>> {
    Seq::new(s.len(), |i: int| raw_shape_seq(s[i]@))
}

/// A path collection as nested point sequences.
pub open spec fn paths_seq(s: Seq<Path>) -> Seq<Seq<Point>> {
    shape_seq(s)
}

/// A raw path collection as nested pair sequences.
pub open spec fn raw_paths_seq(s: Seq<RawContour>) -> Seq<Seq<RawPoint>> {
    raw_shape_seq(s)
}

/// The point a coordinate pair denotes.
pub open spec fn point_from_pair(p: RawPoint) -> Point {
    Point { x: p.0, y: p.1 }
}

/// The coordinate pair denoting a point.
pub open spec fn pair_from_point(p: Point) -> RawPoint {
    (p.x, p.y)
}

/// A pair sequence as a point sequence.
pub open spec fn contour_from_pairs(c: Seq<RawPoint>) -> Seq<Point> {
    Seq::new(c.len(), |i: int| point_from_pair(c[i]))
}

/// A point sequence as a pair sequence.
pub open spec fn contour_to_pairs(c: Seq<Point>) -> Seq<RawPoint> {
    Seq::new(c.len(), |i: int| pair_from_point(c[i]))
}

/// Nested pair sequences as point sequences, two levels deep.
pub open spec fn lists_from_pairs(s: Seq<Seq<RawPoint>>) -> Seq<Seq<Point>> {
    Seq::new(s.len(), |i: int| contour_from_pairs(s[i]))
}

/// Nested point sequences as pair sequences, two levels deep.
pub open spec fn lists_to_pairs(s: Seq<Seq<Point>>) -> Seq<Seq<RawPoint>> {
    Seq::new(s.len(), |i: int| contour_to_pairs(s[i]))
}

/// Nested pair sequences as point sequences, three levels deep.
pub open spec fn nested_from_pairs(s: Seq<Seq<Seq<RawPoint>>>) -> Seq<Seq<Seq<Point>>> {
    Seq::new(s.len(), |i: int| lists_from_pairs(s[i]))
}

/// Nested point sequences as pair sequences, three levels deep.
pub open spec fn nested_to_pairs(s: Seq<Seq<Seq<Point>>>) -> Seq<Seq<Seq<RawPoint>>> {
    Seq::new(s.len(), |i: int| lists_to_pairs(s[i]))
}

/// Crossing the boundary out and back in leaves point sequences unchanged.
pub proof fn lemma_round_trip_out(s: Seq<Seq<Seq<Point>>>)
    ensures
        nested_from_pairs(nested_to_pairs(s)) == s,
{
    assert(nested_from_pairs(nested_to_pairs(s)) =~~= s);
}

/// Crossing the boundary in and back out leaves pair sequences unchanged.
pub proof fn lemma_round_trip_in(s: Seq<Seq<Seq<RawPoint>>>)
    ensures
        nested_to_pairs(nested_from_pairs(s)) == s,
{
    assert(nested_to_pairs(nested_from_pairs(s)) =~~= s);
}

/// Appending a contour whose view is the next element of `full` extends a
/// point-sequence prefix by one.
proof fn lemma_push_points(prev: Seq<Contour>, c: Contour, full: Seq<Seq<Point>>, j: int)
    requires
        0 <= j < full.len(),
        shape_seq(prev) == full.subrange(0, j),
        c@ == full[j],
    ensures
        shape_seq(prev.push(c)) == full.subrange(0, j + 1),
{
    assert(shape_seq(prev).len() == prev.len());
    assert(prev.len() == j);
    assert forall|k: int| 0 <= k < j + 1 implies shape_seq(prev.push(c))[k] == full.subrange(
        0,
        j + 1,
    )[k] by {
        if k < j {
            assert(shape_seq(prev)[k] == full.subrange(0, j)[k]);
        }
    }
    assert(shape_seq(prev.push(c)) =~~= full.subrange(0, j + 1));
}

/// Appending a raw contour whose view is the next element of `full` extends
/// a pair-sequence prefix by one.
proof fn lemma_push_pairs(prev: Seq<RawContour>, c: RawContour, full: Seq<Seq<RawPoint>>, j: int)
    requires
        0 <= j < full.len(),
        raw_shape_seq(prev) == full.subrange(0, j),
        c@ == full[j],
    ensures
        raw_shape_seq(prev.push(c)) == full.subrange(0, j + 1),
{
    assert(raw_shape_seq(prev).len() == prev.len());
    assert(prev.len() == j);
    assert forall|k: int| 0 <= k < j + 1 implies raw_shape_seq(prev.push(c))[k] == full.subrange(
        0,
        j + 1,
    )[k] by {
        if k < j {
            assert(raw_shape_seq(prev)[k] == full.subrange(0, j)[k]);
        }
    }
    assert(raw_shape_seq(prev.push(c)) =~~= full.subrange(0, j + 1));
}

/// Appending a shape whose view is the next element of `full` extends a
/// shape-sequence prefix by one.
proof fn lemma_push_shapes(prev: Seq<Shape>, c: Shape, full: Seq<Seq<Seq<Point>>>, j: int)
    requires
        0 <= j < full.len(),
        shapes_seq(prev) == full.subrange(0, j),
        shape_seq(c@) == full[j],
    ensures
        shapes_seq(prev.push(c)) == full.subrange(0, j + 1),
{
    assert(shapes_seq(prev).len() == prev.len());
    assert(prev.len() == j);
    assert forall|k: int| 0 <= k < j + 1 implies shapes_seq(prev.push(c))[k] == full.subrange(
        0,
        j + 1,
    )[k] by {
        if k < j {
            assert(shapes_seq(prev)[k] == full.subrange(0, j)[k]);
        }
    }
    assert(shapes_seq(prev.push(c)) =~~= full.subrange(0, j + 1));
}

/// Appending a raw shape whose view is the next element of `full` extends a
/// raw-shape-sequence prefix by one.
proof fn lemma_push_raw_shapes(prev: Seq<RawShape>, c: RawShape, full: Seq<Seq<Seq<RawPoint>>>, j: int)
    requires
        0 <= j < full.len(),
        raw_shapes_seq(prev) == full.subrange(0, j),
        raw_shape_seq(c@) == full[j],
    ensures
        raw_shapes_seq(prev.push(c)) == full.subrange(0, j + 1),
{
    assert(raw_shapes_seq(prev).len() == prev.len());
    assert(prev.len() == j);
    assert forall|k: int| 0 <= k < j + 1 implies raw_shapes_seq(prev.push(c))[k] == full.subrange(
        0,
        j + 1,
    )[k] by {
        if k < j {
            assert(raw_shapes_seq(prev)[k] == full.subrange(0, j)[k]);
        }
    }
    assert(raw_shapes_seq(prev.push(c)) =~~= full.subrange(0, j + 1));
}

/// Reads one contour or path from its boundary representation.
pub fn contour_from_raw(c: &RawContour) -> (r: Contour)
    ensures
        r@ == contour_from_pairs(c@),
{
    let n = c.len();
    let mut out: Contour = Vec::new();
    let mut i: usize = 0;
    while i < n
        invariant
            0 <= i <= n,
            n == c@.len(),
            out@ =~= contour_from_pairs(c@.subrange(0, i as int)),
        decreases n - i,
    {
        let p = c[i];
        out.push(Point { x: p.0, y: p.1 });
        proof {
            assert(out@ =~= contour_from_pairs(c@.subrange(0, i as int + 1)));
        }
        i = i + 1;
    }
    proof {
        assert(c@.subrange(0, n as int) =~= c@);
    }
    out
}

/// Writes one contour or path into its boundary representation.
pub fn contour_to_raw(c: &Contour) -> (r: RawContour)
    ensures
        r@ == contour_to_pairs(c@),
{
    let n = c.len();
    let mut out: RawContour = Vec::new();
    let mut i: usize = 0;
    while i < n
        invariant
            0 <= i <= n,
            n == c@.len(),
            out@ =~= contour_to_pairs(c@.subrange(0, i as int)),
        decreases n - i,
    {
        let p = c[i];
        out.push((p.x, p.y));
        proof {
            assert(out@ =~= contour_to_pairs(c@.subrange(0, i as int + 1)));
        }
        i = i + 1;
    }
    proof {
        assert(c@.subrange(0, n as int) =~= c@);
    }
    out
}

/// Reads a shape collection from its boundary representation.
pub fn shapes_from_raw(s: &RawShapes) -> (r: Shapes)
    ensures
        shapes_seq(r@) == nested_from_pairs(raw_shapes_seq(s@)),
{
    let n = s.len();
    let mut out: Shapes = Vec::new();
    let mut i: usize = 0;
    while i < n
        invariant
            0 <= i <= n,
            n == s@.len(),
            shapes_seq(out@) == nested_from_pairs(raw_shapes_seq(s@)).subrange(0, i as int),
        decreases n - i,
    {
        let raw_shape = &s[i];
        let m = raw_shape.len();
        let mut shape: Shape = Vec::new();
        let mut j: usize = 0;
        while j < m
            invariant
                0 <= j <= m,
                m == raw_shape@.len(),
                shape_seq(shape@) == lists_from_pairs(raw_shape_seq(raw_shape@)).subrange(
                    0,
                    j as int,
                ),
            decreases m - j,
        {
            let ghost prev = shape@;
            let contour = contour_from_raw(&raw_shape[j]);
            shape.push(contour);
            proof {
                lemma_push_points(
                    prev,
                    shape@.last(),
                    lists_from_pairs(raw_shape_seq(raw_shape@)),
                    j as int,
                );
            }
            j = j + 1;
        }
        proof {
            assert(lists_from_pairs(raw_shape_seq(raw_shape@)).subrange(
                0,
                m as int,
            ) =~= lists_from_pairs(raw_shape_seq(raw_shape@)));
        }
        let ghost prev_out = out@;
        out.push(shape);
        proof {
            assert(nested_from_pairs(raw_shapes_seq(s@))[i as int] == lists_from_pairs(
                raw_shape_seq(s@[i as int]@),
            ));
            lemma_push_shapes(
                prev_out,
                out@.last(),
                nested_from_pairs(raw_shapes_seq(s@)),
                i as int,
            );
        }
        i = i + 1;
    }
    proof {
        assert(nested_from_pairs(raw_shapes_seq(s@)).subrange(0, n as int) =~= nested_from_pairs(
            raw_shapes_seq(s@),
        ));
    }
    out
}

/// Writes a shape collection into its boundary representation.
pub fn shapes_to_raw(s: &Shapes) -> (r: RawShapes)
    ensures
        raw_shapes_seq(r@) == nested_to_pairs(shapes_seq(s@)),
{
    let n = s.len();
    let mut out: RawShapes = Vec::new();
    let mut i: usize = 0;
    while i < n
        invariant
            0 <= i <= n,
            n == s@.len(),
            raw_shapes_seq(out@) == nested_to_pairs(shapes_seq(s@)).subrange(0, i as int),
        decreases n - i,
    {
        let shape = &s[i];
        let m = shape.len();
        let mut raw_shape: RawShape = Vec::new();
        let mut j: usize = 0;
        while j < m
            invariant
                0 <= j <= m,
                m == shape@.len(),
                raw_shape_seq(raw_shape@) == lists_to_pairs(shape_seq(shape@)).subrange(
                    0,
                    j as int,
                ),
            decreases m - j,
        {
            let ghost prev = raw_shape@;
            let contour = contour_to_raw(&shape[j]);
            raw_shape.push(contour);
            proof {
                lemma_push_pairs(
                    prev,
                    raw_shape@.last(),
                    lists_to_pairs(shape_seq(shape@)),
                    j as int,
                );
            }
            j = j + 1;
        }
        proof {
            assert(lists_to_pairs(shape_seq(shape@)).subrange(0, m as int) =~= lists_to_pairs(
                shape_seq(shape@),
            ));
        }
        let ghost prev_out = out@;
        out.push(raw_shape);
        proof {
            assert(nested_to_pairs(shapes_seq(s@))[i as int] == lists_to_pairs(
                shape_seq(s@[i as int]@),
            ));
            lemma_push_raw_shapes(
                prev_out,
                out@.last(),
                nested_to_pairs(shapes_seq(s@)),
                i as int,
            );
        }
        i = i + 1;
    }
    proof {
        assert(nested_to_pairs(shapes_seq(s@)).subrange(0, n as int) =~= nested_to_pairs(
            shapes_seq(s@),
        ));
    }
    out
}

/// Reads a path collection from its boundary representation.
pub fn paths_from_raw(s: &RawPaths) -> (r: Paths)
    ensures
        paths_seq(r@) == lists_from_pairs(raw_paths_seq(s@)),
{
    let n = s.len();
    let mut out: Paths = Vec::new();
    let mut i: usize = 0;
    while i < n
        invariant
            0 <= i <= n,
            n == s@.len(),
            paths_seq(out@) == lists_from_pairs(raw_paths_seq(s@)).subrange(0, i as int),
        decreases n - i,
    {
        let ghost prev = out@;
        let path = contour_from_raw(&s[i]);
        out.push(path);
        proof {
            lemma_push_points(prev, out@.last(), lists_from_pairs(raw_paths_seq(s@)), i as int);
        }
        i = i + 1;
    }
    proof {
        assert(lists_from_pairs(raw_paths_seq(s@)).subrange(0, n as int) =~= lists_from_pairs(
            raw_paths_seq(s@),
        ));
    }
    out
}

/// Writes a path collection into its boundary representation.
pub fn paths_to_raw(s: &Paths) -> (r: RawPaths)
    ensures
        raw_paths_seq(r@) == lists_to_pairs(paths_seq(s@)),
{
    let n = s.len();
    let mut out: RawPaths = Vec::new();
    let mut i: usize = 0;
    while i < n
        invariant
            0 <= i <= n,
            n == s@.len(),
            raw_paths_seq(out@) == lists_to_pairs(paths_seq(s@)).subrange(0, i as int),
        decreases n - i,
    {
        let ghost prev = out@;
        let path = contour_to_raw(&s[i]);
        out.push(path);
        proof {
            assert(paths_seq(s@)[i as int] == s@[i as int]@);
            lemma_push_pairs(prev, out@.last(), lists_to_pairs(paths_seq(s@)), i as int);
        }
        i = i + 1;
    }
    proof {
        assert(lists_to_pairs(paths_seq(s@)).subrange(0, n as int) =~= lists_to_pairs(
            paths_seq(s@),
        ));
    }
    out
}

} // verus!

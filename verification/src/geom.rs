//! Core geometric data model: points, contours, shapes and paths.
//!
//! Coordinates are 32-bit integers on the engine's grid. The engine performs
//! unchecked widening arithmetic on point differences, so every coordinate
//! handed to it must stay strictly between `-2^30` and `2^30`; the range
//! predicates below capture that contract.

use vstd::prelude::*;

verus! {

/// A point on the 32-bit integer grid.
#[derive(Clone, Copy, Debug, PartialEq, Eq, Structural)]
pub struct Point {
    pub x: i32,
    pub y: i32,
}

impl Point {
    /// Builds a grid point from its two coordinates.
    #[inline]
    pub fn new(x: i32, y: i32) -> (p: Point)
        ensures
            p.x == x,
            p.y == y,
    {
        Point { x, y }
    }
}

/// An implicitly closed sequence of points.
pub type Contour = Vec<Point>;

/// A shape: the first contour is the outer boundary, the rest are holes.
pub type Shape = Vec<Contour>;

/// An operand or result: an ordered collection of shapes.
pub type Shapes = Vec<Shape>;

/// An open polyline.
pub type Path = Vec<Point>;

/// A collection of open polylines.
pub type Paths = Vec<Path>;

/// A coordinate the 32-bit engine accepts: strictly between `-2^30` and `2^30`.
pub open spec fn coord_in_range(c: i32) -> bool {
    -0x4000_0000 < c && c < 0x4000_0000
}

pub open spec fn point_in_range(p: Point) -> bool {
    coord_in_range(p.x) && coord_in_range(p.y)
}

pub open spec fn contour_in_range(c: Seq<Point>) -> bool {
    forall|i: int| 0 <= i < c.len() ==> point_in_range(c[i])
}

pub open spec fn shape_in_range(s: Seq<Contour>) -> bool {
    forall|i: int| 0 <= i < s.len() ==> contour_in_range(s[i]@)
}

pub open spec fn shapes_in_range(s: Seq<Shape>) -> bool {
    forall|i: int| 0 <= i < s.len() ==> shape_in_range(s[i]@)
}

pub open spec fn paths_in_range(s: Seq<Path>) -> bool {
    forall|i: int| 0 <= i < s.len() ==> contour_in_range(s[i]@)
}

/// A shape's contours as point sequences.
pub open spec fn shape_seq(s: Seq<Contour>) -> Seq<Seq<Point>> {
    Seq::new(s.len(), |i: int| s[i]@)
}

/// A shape collection as nested point sequences.
pub open spec fn shapes_seq(s: Seq<Shape>) -> Seq<Seq<Seq<Point>>> {
    Seq::new(s.len(), |i: int| shape_seq(s[i]@))
}

/// Coordinate pair of a point, as unbounded integers.
pub open spec fn pt(p: Point) -> (int, int) {
    (p.x as int, p.y as int)
}

/// A point sequence as a sequence of coordinate pairs.
pub open spec fn pts_view(c: Seq<Point>) -> Seq<(int, int)> {
    Seq::new(c.len(), |i: int| pt(c[i]))
}

/// Nested point sequences as coordinate pairs, two levels deep.
pub open spec fn lists_view(s: Seq<Seq<Point>>) -> Seq<Seq<(int, int)>> {
    Seq::new(s.len(), |i: int| pts_view(s[i]))
}

/// Nested point sequences as coordinate pairs, three levels deep.
pub open spec fn nested_view(s: Seq<Seq<Seq<Point>>>) -> Seq<Seq<Seq<(int, int)>>> {
    Seq::new(s.len(), |i: int| lists_view(s[i]))
}

/// A contour or path as a sequence of coordinate pairs.
pub open spec fn cview(c: Seq<Point>) -> Seq<(int, int)> {
    pts_view(c)
}

/// A shape, or a path collection, as nested coordinate pairs.
pub open spec fn sview(s: Seq<Contour>) -> Seq<Seq<(int, int)>> {
    lists_view(shape_seq(s))
}

/// A shape collection as nested coordinate pairs.
pub open spec fn ssview(s: Seq<Shape>) -> Seq<Seq<Seq<(int, int)>>> {
    nested_view(shapes_seq(s))
}

/// A coordinate pair the engine accepts.
pub open spec fn pair_in_range(p: (int, int)) -> bool {
    -0x4000_0000 < p.0 && p.0 < 0x4000_0000 && -0x4000_0000 < p.1 && p.1 < 0x4000_0000
}

/// Every coordinate of a pair-sequence view lies in the engine's range.
pub open spec fn view_in_range2(s: Seq<Seq<(int, int)>>) -> bool {
    forall|i: int, j: int|
        0 <= i < s.len() && 0 <= j < s[i].len() ==> pair_in_range(#[trigger] s[i][j])
}

/// Every coordinate of a nested view lies in the engine's range.
pub open spec fn view_in_range3(s: Seq<Seq<Seq<(int, int)>>>) -> bool {
    forall|i: int| 0 <= i < s.len() ==> view_in_range2(#[trigger] s[i])
}

/// Every point of nested point sequences lies in range, two levels deep.
pub open spec fn lists_in_range(s: Seq<Seq<Point>>) -> bool {
    forall|i: int| 0 <= i < s.len() ==> contour_in_range(#[trigger] s[i])
}

/// Every point of nested point sequences lies in range, three levels deep.
pub open spec fn nested_in_range(s: Seq<Seq<Seq<Point>>>) -> bool {
    forall|i: int| 0 <= i < s.len() ==> lists_in_range(#[trigger] s[i])
}

/// In-range points have in-range coordinate-pair views.
pub proof fn lemma_nested_range_view(s: Seq<Seq<Seq<Point>>>)
    requires
        nested_in_range(s),
    ensures
        view_in_range3(nested_view(s)),
{
    assert forall|i: int| 0 <= i < nested_view(s).len() implies view_in_range2(
        #[trigger] nested_view(s)[i],
    ) by {
        assert(lists_in_range(s[i]));
        assert forall|j: int, k: int|
            0 <= j < nested_view(s)[i].len() && 0 <= k < nested_view(s)[i][j].len() implies
            pair_in_range(#[trigger] nested_view(s)[i][j][k]) by {
            assert(contour_in_range(s[i][j]));
            assert(point_in_range(s[i][j][k]));
            assert(nested_view(s)[i] == lists_view(s[i]));
            assert(nested_view(s)[i][j] == pts_view(s[i][j]));
            assert(nested_view(s)[i][j][k] == pt(s[i][j][k]));
        }
    }
}

/// In-range shapes have in-range nested point sequences.
pub proof fn lemma_shapes_range_seq(s: Seq<Shape>)
    requires
        shapes_in_range(s),
    ensures
        nested_in_range(shapes_seq(s)),
{
    assert forall|i: int| 0 <= i < shapes_seq(s).len() implies lists_in_range(
        #[trigger] shapes_seq(s)[i],
    ) by {
        assert(shape_in_range(s[i]@));
        assert forall|j: int| 0 <= j < shapes_seq(s)[i].len() implies contour_in_range(
            #[trigger] shapes_seq(s)[i][j],
        ) by {
            assert(shapes_seq(s)[i] == shape_seq(s[i]@));
            assert(shape_seq(s[i]@)[j] == s[i]@[j]@);
            assert(contour_in_range(s[i]@[j]@));
        }
    }
}

/// In-range paths have in-range coordinate-pair views.
pub proof fn lemma_paths_range_view(s: Seq<Path>)
    requires
        paths_in_range(s),
    ensures
        view_in_range2(sview(s)),
{
    assert forall|i: int, j: int|
        0 <= i < sview(s).len() && 0 <= j < sview(s)[i].len() implies pair_in_range(
        #[trigger] sview(s)[i][j],
    ) by {
        assert(sview(s)[i] == pts_view(shape_seq(s)[i]));
        assert(shape_seq(s)[i] == s[i]@);
        assert(contour_in_range(s[i]@));
        assert(point_in_range(s[i]@[j]));
        assert(sview(s)[i][j] == pt(s[i]@[j]));
    }
}

/// Tests whether a point lies in the engine's safe coordinate range.
pub fn point_in_range_exec(p: &Point) -> (b: bool)
    ensures
        b == point_in_range(*p),
{
    -0x4000_0000 < p.x && p.x < 0x4000_0000 && -0x4000_0000 < p.y && p.y < 0x4000_0000
}

/// Tests whether every point of a contour or path lies in range.
pub fn contour_in_range_exec(c: &Contour) -> (b: bool)
    ensures
        b == contour_in_range(c@),
{
    let n = c.len();
    let mut i: usize = 0;
    while i < n
        invariant
            0 <= i <= n,
            n == c@.len(),
            forall|k: int| 0 <= k < i ==> point_in_range(#[trigger] c@[k]),
        decreases n - i,
    {
        if !point_in_range_exec(&c[i]) {
            return false;
        }
        i = i + 1;
    }
    true
}

/// Tests whether every point of a shape lies in range.
pub fn shape_in_range_exec(s: &Shape) -> (b: bool)
    ensures
        b == shape_in_range(s@),
{
    let n = s.len();
    let mut i: usize = 0;
    while i < n
        invariant
            0 <= i <= n,
            n == s@.len(),
            forall|k: int| 0 <= k < i ==> contour_in_range(#[trigger] s@[k]@),
        decreases n - i,
    {
        if !contour_in_range_exec(&s[i]) {
            return false;
        }
        i = i + 1;
    }
    true
}

/// Tests whether every point of a shape collection lies in range.
pub fn shapes_in_range_exec(s: &Shapes) -> (b: bool)
    ensures
        b == shapes_in_range(s@),
{
    let n = s.len();
    let mut i: usize = 0;
    while i < n
        invariant
            0 <= i <= n,
            n == s@.len(),
            forall|k: int| 0 <= k < i ==> shape_in_range(#[trigger] s@[k]@),
        decreases n - i,
    {
        if !shape_in_range_exec(&s[i]) {
            return false;
        }
        i = i + 1;
    }
    true
}

/// Tests whether every point of a path collection lies in range.
pub fn paths_in_range_exec(s: &Paths) -> (b: bool)
    ensures
        b == paths_in_range(s@),
{
    let n = s.len();
    let mut i: usize = 0;
    while i < n
        invariant
            0 <= i <= n,
            n == s@.len(),
            forall|k: int| 0 <= k < i ==> contour_in_range(#[trigger] s@[k]@),
        decreases n - i,
    {
        if !contour_in_range_exec(&s[i]) {
            return false;
        }
        i = i + 1;
    }
    true
}

} // verus!

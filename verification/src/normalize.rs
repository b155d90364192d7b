//! Geometry normalisation and validation.
//!
//! Incoming contours may carry consecutive duplicate points or be closed
//! explicitly by repeating the first point; both are removed here. A contour
//! left with fewer than three points spans no area and is dropped, and a
//! shape left without contours disappears. Validation checks the same
//! conditions without repairing them, reporting the first offence found.

use vstd::prelude::*;

use crate::geom::Contour;
use crate::geom::Point;
use crate::geom::Shape;
use crate::geom::Shapes;
use crate::geom::contour_in_range;
use crate::geom::lists_in_range;
use crate::geom::nested_in_range;
use crate::geom::point_in_range;
use crate::geom::shape_seq;
use crate::geom::shapes_seq;

verus! {

/// A contour with every consecutive duplicate point removed.
pub open spec fn consecutive_dedup(c: Seq<Point>) -> Seq<Point>
    decreases c.len(),
{
    if c.len() <= 1 {
        c
    } else if c.last() == c[c.len() - 2] {
        consecutive_dedup(c.drop_last())
    } else {
        consecutive_dedup(c.drop_last()).push(c.last())
    }
}

/// A deduplicated contour with an explicit closing point removed: if the
/// last point repeats the first, it is dropped.
pub open spec fn open_ring(c: Seq<Point>) -> Seq<Point> {
    if c.len() > 1 && c.last() == c[0] {
        c.drop_last()
    } else {
        c
    }
}

/// The cleaned form of a contour.
pub open spec fn clean_contour_spec(c: Seq<Point>) -> Seq<Point> {
    open_ring(consecutive_dedup(c))
}

/// A shape with every contour cleaned and degenerate contours dropped.
pub open spec fn normalize_shape_spec(s: Seq<Seq<Point>>) -> Seq<Seq<Point>>
    decreases s.len(),
{
    if s.len() == 0 {
        Seq::empty()
    } else {
        let rest = normalize_shape_spec(s.drop_last());
        let cleaned = clean_contour_spec(s.last());
        if cleaned.len() >= 3 {
            rest.push(cleaned)
        } else {
            rest
        }
    }
}

/// A shape collection with every shape normalised and empty shapes dropped.
pub open spec fn normalize_shapes_spec(s: Seq<Seq<Seq<Point>>>) -> Seq<Seq<Seq<Point>>>
    decreases s.len(),
{
    if s.len() == 0 {
        Seq::empty()
    } else {
        let rest = normalize_shapes_spec(s.drop_last());
        let cleaned = normalize_shape_spec(s.last());
        if cleaned.len() > 0 {
            rest.push(cleaned)
        } else {
            rest
        }
    }
}

/// Removes consecutive duplicate points and an explicit closing point.
pub fn clean_contour(c: &Contour) -> (r: Contour)
    ensures
        r@ == clean_contour_spec(c@),
{
    let n = c.len();
    let mut out: Contour = Vec::new();
    let mut i: usize = 0;
    while i < n
        invariant
            0 <= i <= n,
            n == c@.len(),
            out@ == consecutive_dedup(c@.subrange(0, i as int)),
            out@.len() > 0 ==> i > 0 && out@.last() == c@[i as int - 1],
            i > 0 ==> out@.len() > 0,
            out@.len() <= i,
        decreases n - i,
    {
        let p = c[i];
        proof {
            assert(c@.subrange(0, i as int + 1).drop_last() =~= c@.subrange(0, i as int));
        }
        if out.len() == 0 {
            out.push(p);
        } else {
            let last = out[out.len() - 1];
            if !(last == p) {
                out.push(p);
            }
        }
        i = i + 1;
    }
    proof {
        assert(c@.subrange(0, n as int) =~= c@);
    }
    if out.len() > 1 {
        let first = out[0];
        let last = out[out.len() - 1];
        if first == last {
            out.pop();
        }
    }
    out
}

/// Cleans every contour of a shape and drops those with fewer than three
/// points.
pub fn normalize_shape(s: &Shape) -> (r: Shape)
    ensures
        shape_seq(r@) == normalize_shape_spec(shape_seq(s@)),
{
    let n = s.len();
    let mut out: Shape = Vec::new();
    let mut i: usize = 0;
    while i < n
        invariant
            0 <= i <= n,
            n == s@.len(),
            shape_seq(out@) == normalize_shape_spec(shape_seq(s@).subrange(0, i as int)),
        decreases n - i,
    {
        proof {
            assert(shape_seq(s@).subrange(0, i as int + 1).drop_last() =~= shape_seq(
                s@,
            ).subrange(0, i as int));
        }
        let ghost prev = out@;
        let cleaned = clean_contour(&s[i]);
        if cleaned.len() >= 3 {
            out.push(cleaned);
            proof {
                assert(shape_seq(out@) =~= shape_seq(prev).push(cleaned@));
            }
        }
        i = i + 1;
    }
    proof {
        assert(shape_seq(s@).subrange(0, n as int) =~= shape_seq(s@));
    }
    out
}

/// Normalises every shape of a collection and drops shapes left empty.
/// The result always passes validation: no shape is empty and every
/// contour has at least three points.
pub fn normalize_shapes(s: &Shapes) -> (r: Shapes)
    ensures
        shapes_seq(r@) == normalize_shapes_spec(shapes_seq(s@)),
        shapes_valid(r@),
{
    let r = normalize_shapes_inner(s);
    proof {
        lemma_normalize_shapes_elements(shapes_seq(s@));
        let result = normalize_shapes_spec(shapes_seq(s@));
        assert forall|i: int| 0 <= i < r@.len() implies r@[i]@.len() > 0 && (forall|j: int|
            0 <= j < r@[i]@.len() ==> #[trigger] r@[i]@[j]@.len() >= 3) by {
            assert(shapes_seq(r@)[i] == shape_seq(r@[i]@));
            assert(shape_seq(r@[i]@) == result[i]);
            lemma_normalize_shape_elements(result[i]);
            assert(normalize_shape_spec(result[i]) == result[i]);
            assert forall|j: int| 0 <= j < r@[i]@.len() implies #[trigger] r@[i]@[j]@.len()
                >= 3 by {
                assert(shape_seq(r@[i]@)[j] == r@[i]@[j]@);
                assert(result[i][j].len() >= 3);
            }
        }
    }
    r
}

/// Normalises every shape of a collection and drops shapes left empty.
fn normalize_shapes_inner(s: &Shapes) -> (r: Shapes)
    ensures
        shapes_seq(r@) == normalize_shapes_spec(shapes_seq(s@)),
{
    let n = s.len();
    let mut out: Shapes = Vec::new();
    let mut i: usize = 0;
    while i < n
        invariant
            0 <= i <= n,
            n == s@.len(),
            shapes_seq(out@) == normalize_shapes_spec(shapes_seq(s@).subrange(0, i as int)),
        decreases n - i,
    {
        proof {
            assert(shapes_seq(s@).subrange(0, i as int + 1).drop_last() =~= shapes_seq(
                s@,
            ).subrange(0, i as int));
        }
        let ghost prev = out@;
        let cleaned = normalize_shape(&s[i]);
        if cleaned.len() > 0 {
            out.push(cleaned);
            proof {
                assert(shapes_seq(out@) =~= shapes_seq(prev).push(shape_seq(cleaned@)));
            }
        }
        i = i + 1;
    }
    proof {
        assert(shapes_seq(s@).subrange(0, n as int) =~= shapes_seq(s@));
    }
    out
}

/// Removing consecutive duplicates keeps every remaining point in range.
pub proof fn lemma_dedup_in_range(c: Seq<Point>)
    requires
        contour_in_range(c),
    ensures
        contour_in_range(consecutive_dedup(c)),
    decreases c.len(),
{
    if c.len() > 1 {
        assert forall|i: int| 0 <= i < c.drop_last().len() implies point_in_range(
            #[trigger] c.drop_last()[i],
        ) by {
            assert(c.drop_last()[i] == c[i]);
        }
        lemma_dedup_in_range(c.drop_last());
        if !(c.last() == c[c.len() - 2]) {
            let rest = consecutive_dedup(c.drop_last());
            assert forall|i: int| 0 <= i < rest.push(c.last()).len() implies point_in_range(
                #[trigger] rest.push(c.last())[i],
            ) by {
                if i < rest.len() {
                    assert(rest.push(c.last())[i] == rest[i]);
                } else {
                    assert(rest.push(c.last())[i] == c.last());
                }
            }
        }
    }
}

/// Cleaning a contour keeps every remaining point in range.
pub proof fn lemma_clean_in_range(c: Seq<Point>)
    requires
        contour_in_range(c),
    ensures
        contour_in_range(clean_contour_spec(c)),
{
    lemma_dedup_in_range(c);
    let d = consecutive_dedup(c);
    if d.len() > 1 && d.last() == d[0] {
        assert forall|i: int| 0 <= i < d.drop_last().len() implies point_in_range(
            #[trigger] d.drop_last()[i],
        ) by {
            assert(d.drop_last()[i] == d[i]);
        }
    }
}

/// Normalising a shape keeps every remaining point in range.
pub proof fn lemma_normalize_shape_in_range(s: Seq<Seq<Point>>)
    requires
        lists_in_range(s),
    ensures
        lists_in_range(normalize_shape_spec(s)),
    decreases s.len(),
{
    if s.len() > 0 {
        assert forall|i: int| 0 <= i < s.drop_last().len() implies contour_in_range(
            #[trigger] s.drop_last()[i],
        ) by {
            assert(s.drop_last()[i] == s[i]);
        }
        lemma_normalize_shape_in_range(s.drop_last());
        assert(contour_in_range(s.last()));
        lemma_clean_in_range(s.last());
        let rest = normalize_shape_spec(s.drop_last());
        let cleaned = clean_contour_spec(s.last());
        if cleaned.len() >= 3 {
            assert forall|i: int| 0 <= i < rest.push(cleaned).len() implies contour_in_range(
                #[trigger] rest.push(cleaned)[i],
            ) by {
                if i < rest.len() {
                    assert(rest.push(cleaned)[i] == rest[i]);
                } else {
                    assert(rest.push(cleaned)[i] == cleaned);
                }
            }
        }
    }
}

/// Normalising a shape collection keeps every remaining point in range.
pub proof fn lemma_normalize_shapes_in_range(s: Seq<Seq<Seq<Point>>>)
    requires
        nested_in_range(s),
    ensures
        nested_in_range(normalize_shapes_spec(s)),
    decreases s.len(),
{
    if s.len() > 0 {
        assert forall|i: int| 0 <= i < s.drop_last().len() implies lists_in_range(
            #[trigger] s.drop_last()[i],
        ) by {
            assert(s.drop_last()[i] == s[i]);
        }
        lemma_normalize_shapes_in_range(s.drop_last());
        assert(lists_in_range(s.last()));
        lemma_normalize_shape_in_range(s.last());
        let rest = normalize_shapes_spec(s.drop_last());
        let cleaned = normalize_shape_spec(s.last());
        if cleaned.len() > 0 {
            assert forall|i: int| 0 <= i < rest.push(cleaned).len() implies lists_in_range(
                #[trigger] rest.push(cleaned)[i],
            ) by {
                if i < rest.len() {
                    assert(rest.push(cleaned)[i] == rest[i]);
                } else {
                    assert(rest.push(cleaned)[i] == cleaned);
                }
            }
        }
    }
}

/// Deduplication keeps the last point of a nonempty contour.
proof fn lemma_dedup_last(c: Seq<Point>)
    requires
        c.len() > 0,
    ensures
        consecutive_dedup(c).len() > 0,
        consecutive_dedup(c).last() == c.last(),
    decreases c.len(),
{
    if c.len() > 1 {
        lemma_dedup_last(c.drop_last());
    }
}

/// A deduplicated contour has no two adjacent equal points.
proof fn lemma_dedup_no_adjacent(c: Seq<Point>)
    ensures
        forall|i: int|
            0 < i < consecutive_dedup(c).len() ==> #[trigger] consecutive_dedup(c)[i]
                != consecutive_dedup(c)[i - 1],
    decreases c.len(),
{
    if c.len() > 1 {
        lemma_dedup_no_adjacent(c.drop_last());
        let rest = consecutive_dedup(c.drop_last());
        if !(c.last() == c[c.len() - 2]) {
            lemma_dedup_last(c.drop_last());
            let d = rest.push(c.last());
            assert forall|i: int| 0 < i < d.len() implies #[trigger] d[i] != d[i - 1] by {
                if i < d.len() - 1 {
                    assert(d[i] == rest[i] && d[i - 1] == rest[i - 1]);
                } else {
                    assert(d[i] == c.last());
                    assert(d[i - 1] == rest.last());
                    assert(rest.last() == c.drop_last().last());
                }
            }
        }
    }
}

/// Deduplication leaves a contour without adjacent duplicates unchanged.
proof fn lemma_dedup_fixpoint(c: Seq<Point>)
    requires
        forall|i: int| 0 < i < c.len() ==> #[trigger] c[i] != c[i - 1],
    ensures
        consecutive_dedup(c) == c,
    decreases c.len(),
{
    if c.len() > 1 {
        assert(c.last() != c[c.len() - 2]);
        assert forall|i: int| 0 < i < c.drop_last().len() implies #[trigger] c.drop_last()[i]
            != c.drop_last()[i - 1] by {
            assert(c.drop_last()[i] == c[i] && c.drop_last()[i - 1] == c[i - 1]);
        }
        lemma_dedup_fixpoint(c.drop_last());
        assert(consecutive_dedup(c) =~= c);
    }
}

/// Cleaning a contour twice gives the same result as cleaning it once.
pub proof fn lemma_clean_idempotent(c: Seq<Point>)
    ensures
        clean_contour_spec(clean_contour_spec(c)) == clean_contour_spec(c),
{
    lemma_dedup_no_adjacent(c);
    let d = consecutive_dedup(c);
    let r = open_ring(d);
    assert forall|i: int| 0 < i < r.len() implies #[trigger] r[i] != r[i - 1] by {
        assert(r[i] == d[i] && r[i - 1] == d[i - 1]);
    }
    if r.len() > 1 {
        if d.len() > 1 && d.last() == d[0] {
            assert(r == d.drop_last());
            assert(r.last() == d[d.len() - 2]);
            assert(d[d.len() - 2] != d[d.len() - 1]);
            assert(r[0] == d[0]);
        }
        assert(r.last() != r[0]);
    }
    lemma_dedup_fixpoint(r);
    assert(open_ring(r) == r);
}

/// Every contour a normalised shape keeps is clean and has three points.
proof fn lemma_normalize_shape_elements(s: Seq<Seq<Point>>)
    ensures
        forall|j: int|
            0 <= j < normalize_shape_spec(s).len() ==> clean_contour_spec(
                #[trigger] normalize_shape_spec(s)[j],
            ) == normalize_shape_spec(s)[j] && normalize_shape_spec(s)[j].len() >= 3,
    decreases s.len(),
{
    if s.len() > 0 {
        lemma_normalize_shape_elements(s.drop_last());
        lemma_clean_idempotent(s.last());
        let rest = normalize_shape_spec(s.drop_last());
        let result = normalize_shape_spec(s);
        assert forall|j: int| 0 <= j < result.len() implies clean_contour_spec(
            #[trigger] result[j],
        ) == result[j] && result[j].len() >= 3 by {
            if j < rest.len() {
                assert(result[j] == rest[j]);
            } else {
                assert(result[j] == clean_contour_spec(s.last()));
            }
        }
    }
}

/// Normalisation leaves a shape of clean, three-point contours unchanged.
proof fn lemma_normalize_shape_fixpoint(s: Seq<Seq<Point>>)
    requires
        forall|j: int|
            0 <= j < s.len() ==> clean_contour_spec(#[trigger] s[j]) == s[j] && s[j].len() >= 3,
    ensures
        normalize_shape_spec(s) == s,
    decreases s.len(),
{
    if s.len() > 0 {
        assert forall|j: int| 0 <= j < s.drop_last().len() implies clean_contour_spec(
            #[trigger] s.drop_last()[j],
        ) == s.drop_last()[j] && s.drop_last()[j].len() >= 3 by {
            assert(s.drop_last()[j] == s[j]);
        }
        lemma_normalize_shape_fixpoint(s.drop_last());
        assert(clean_contour_spec(s.last()) == s.last());
        assert(normalize_shape_spec(s) =~= s);
    }
}

/// Normalising a shape twice gives the same result as normalising once.
pub proof fn lemma_normalize_shape_idempotent(s: Seq<Seq<Point>>)
    ensures
        normalize_shape_spec(normalize_shape_spec(s)) == normalize_shape_spec(s),
{
    lemma_normalize_shape_elements(s);
    lemma_normalize_shape_fixpoint(normalize_shape_spec(s));
}

/// Every shape a normalised collection keeps is itself normalised and
/// nonempty.
proof fn lemma_normalize_shapes_elements(s: Seq<Seq<Seq<Point>>>)
    ensures
        forall|i: int|
            0 <= i < normalize_shapes_spec(s).len() ==> normalize_shape_spec(
                #[trigger] normalize_shapes_spec(s)[i],
            ) == normalize_shapes_spec(s)[i] && normalize_shapes_spec(s)[i].len() > 0,
    decreases s.len(),
{
    if s.len() > 0 {
        lemma_normalize_shapes_elements(s.drop_last());
        lemma_normalize_shape_idempotent(s.last());
        let rest = normalize_shapes_spec(s.drop_last());
        let result = normalize_shapes_spec(s);
        assert forall|i: int| 0 <= i < result.len() implies normalize_shape_spec(
            #[trigger] result[i],
        ) == result[i] && result[i].len() > 0 by {
            if i < rest.len() {
                assert(result[i] == rest[i]);
            } else {
                assert(result[i] == normalize_shape_spec(s.last()));
            }
        }
    }
}

/// Normalisation leaves a collection of normalised, nonempty shapes
/// unchanged.
proof fn lemma_normalize_shapes_fixpoint(s: Seq<Seq<Seq<Point>>>)
    requires
        forall|i: int|
            0 <= i < s.len() ==> normalize_shape_spec(#[trigger] s[i]) == s[i] && s[i].len() > 0,
    ensures
        normalize_shapes_spec(s) == s,
    decreases s.len(),
{
    if s.len() > 0 {
        assert forall|i: int| 0 <= i < s.drop_last().len() implies normalize_shape_spec(
            #[trigger] s.drop_last()[i],
        ) == s.drop_last()[i] && s.drop_last()[i].len() > 0 by {
            assert(s.drop_last()[i] == s[i]);
        }
        lemma_normalize_shapes_fixpoint(s.drop_last());
        assert(normalize_shape_spec(s.last()) == s.last());
        assert(normalize_shapes_spec(s) =~= s);
    }
}

/// Normalising a shape collection is idempotent: the second pass finds
/// nothing left to repair.
pub proof fn lemma_normalize_shapes_idempotent(s: Seq<Seq<Seq<Point>>>)
    ensures
        normalize_shapes_spec(normalize_shapes_spec(s)) == normalize_shapes_spec(s),
{
    lemma_normalize_shapes_elements(s);
    lemma_normalize_shapes_fixpoint(normalize_shapes_spec(s));
}

/// Why a shape collection fails validation.
#[derive(Clone, Copy, Debug, PartialEq, Eq, Structural)]
pub enum GeometryError {
    /// The shape at this index has no contours.
    EmptyShape { shape: usize },
    /// The contour at this position has fewer than three points.
    TooFewPoints { shape: usize, contour: usize },
}

/// A structurally valid result: every shape has at least one contour and
/// every contour at least three points.
pub open spec fn shapes_valid(s: Seq<Shape>) -> bool {
    forall|i: int|
        0 <= i < s.len() ==> s[i]@.len() > 0 && (forall|j: int|
            0 <= j < s[i]@.len() ==> #[trigger] s[i]@[j]@.len() >= 3)
}

/// Checks that every shape has a contour and every contour three points,
/// reporting the first offence in scan order.
pub fn validate_shapes(s: &Shapes) -> (r: Result<(), GeometryError>)
    ensures
        r is Ok <==> shapes_valid(s@),
        match r {
            Ok(()) => true,
            Err(GeometryError::EmptyShape { shape }) => shape < s@.len() && s@[shape as int]@.len()
                == 0,
            Err(GeometryError::TooFewPoints { shape, contour }) => shape < s@.len() && contour
                < s@[shape as int]@.len() && s@[shape as int]@[contour as int]@.len() < 3,
        },
{
    let n = s.len();
    let mut i: usize = 0;
    while i < n
        invariant
            0 <= i <= n,
            n == s@.len(),
            forall|a: int|
                0 <= a < i ==> s@[a]@.len() > 0 && (forall|b: int|
                    0 <= b < s@[a]@.len() ==> #[trigger] s@[a]@[b]@.len() >= 3),
        decreases n - i,
    {
        let shape = &s[i];
        if shape.len() == 0 {
            return Err(GeometryError::EmptyShape { shape: i });
        }
        let m = shape.len();
        let mut j: usize = 0;
        while j < m
            invariant
                0 <= j <= m,
                m == shape@.len(),
                shape == &s[i as int],
                i < n,
                n == s@.len(),
                forall|b: int| 0 <= b < j ==> #[trigger] shape@[b]@.len() >= 3,
            decreases m - j,
        {
            if shape[j].len() < 3 {
                return Err(GeometryError::TooFewPoints { shape: i, contour: j });
            }
            j = j + 1;
        }
        i = i + 1;
    }
    Ok(())
}

} // verus!

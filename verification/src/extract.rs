//! Output post-processing: winding direction and minimum-area filtering.
//!
//! The engine extracts contours counter-clockwise for outer boundaries and
//! clockwise for holes. When the caller asks for the opposite direction,
//! every contour is reversed. A contour is kept only if it has at least
//! three points and, when a minimum output area is set, its absolute area
//! reaches that threshold; shapes left without contours are dropped. These
//! two steps are fully verified, so every extraction result provably
//! contains only contours of three or more points and sufficient area.

use vstd::prelude::*;

use crate::area::abs_double_area;
use crate::geom::Contour;
use crate::geom::Shape;
use crate::geom::Shapes;
use crate::geom::cview;
use crate::geom::sview;
use crate::geom::ssview;
use crate::options::OverlayOptions;
use crate::rules::CoreDirection;
use crate::rules::dir_code;

verus! {

/// Whether a contour survives extraction: at least three points, and at
/// least the minimum absolute area when a threshold is set.
pub open spec fn keep_contour(c: Seq<(int, int)>, min_area: int) -> bool {
    c.len() >= 3 && (min_area == 0 || abs_double_area(c) / 2 >= min_area)
}

/// A shape with every dropped contour removed.
pub open spec fn filter_shape_spec(s: Seq<Seq<(int, int)>>, min_area: int) -> Seq<Seq<(int, int)>>
    decreases s.len(),
{
    if s.len() == 0 {
        Seq::empty()
    } else {
        let rest = filter_shape_spec(s.drop_last(), min_area);
        if keep_contour(s.last(), min_area) {
            rest.push(s.last())
        } else {
            rest
        }
    }
}

/// A collection with every shape filtered and empty shapes dropped.
pub open spec fn filter_shapes_spec(
    s: Seq<Seq<Seq<(int, int)>>>,
    min_area: int,
) -> Seq<Seq<Seq<(int, int)>>>
    decreases s.len(),
{
    if s.len() == 0 {
        Seq::empty()
    } else {
        let rest = filter_shapes_spec(s.drop_last(), min_area);
        let filtered = filter_shape_spec(s.last(), min_area);
        if filtered.len() > 0 {
            rest.push(filtered)
        } else {
            rest
        }
    }
}

/// Every contour of a shape is reversed.
pub open spec fn reverse_contours(s: Seq<Seq<(int, int)>>) -> Seq<Seq<(int, int)>> {
    Seq::new(s.len(), |i: int| s[i].reverse())
}

/// Every contour of every shape is reversed.
pub open spec fn reverse_all(s: Seq<Seq<Seq<(int, int)>>>) -> Seq<Seq<Seq<(int, int)>>> {
    Seq::new(s.len(), |i: int| reverse_contours(s[i]))
}

/// Counter-clockwise output is kept as extracted; clockwise output is the
/// same geometry with every contour reversed.
pub open spec fn oriented(s: Seq<Seq<Seq<(int, int)>>>, direction: int) -> Seq<
    Seq<Seq<(int, int)>>,
> {
    if direction == 1 {
        reverse_all(s)
    } else {
        s
    }
}

/// The complete post-processing of an extraction result: orientation
/// first, then the area filter.
pub open spec fn post_process(
    s: Seq<Seq<Seq<(int, int)>>>,
    direction: int,
    min_area: int,
) -> Seq<Seq<Seq<(int, int)>>> {
    filter_shapes_spec(oriented(s, direction), min_area)
}

/// The choice of output direction changes only each contour's winding:
/// shape and contour counts, point counts and absolute areas all stay
/// the same.
pub proof fn lemma_oriented_preserves_shape(s: Seq<Seq<Seq<(int, int)>>>, direction: int)
    ensures
        oriented(s, direction).len() == s.len(),
        forall|i: int|
            0 <= i < s.len() ==> (#[trigger] oriented(s, direction)[i]).len() == s[i].len(),
        forall|i: int, j: int|
            0 <= i < s.len() && 0 <= j < s[i].len() ==> (#[trigger] oriented(
                s,
                direction,
            )[i][j]).len() == s[i][j].len() && abs_double_area(oriented(s, direction)[i][j])
                == abs_double_area(s[i][j]),
{
    if direction == 1 {
        assert forall|i: int, j: int|
            0 <= i < s.len() && 0 <= j < s[i].len() implies (#[trigger] oriented(
            s,
            direction,
        )[i][j]).len() == s[i][j].len() && abs_double_area(oriented(s, direction)[i][j])
            == abs_double_area(s[i][j]) by {
            assert(oriented(s, direction)[i] == reverse_contours(s[i]));
            assert(oriented(s, direction)[i][j] == s[i][j].reverse());
            crate::area::lemma_reverse_negates_area(s[i][j]);
        }
    }
}

/// Every contour that `filter_shape_spec` keeps satisfies `keep_contour`.
pub proof fn lemma_filter_shape_kept(s: Seq<Seq<(int, int)>>, min_area: int)
    ensures
        forall|j: int|
            0 <= j < filter_shape_spec(s, min_area).len() ==> keep_contour(
                #[trigger] filter_shape_spec(s, min_area)[j],
                min_area,
            ),
    decreases s.len(),
{
    if s.len() > 0 {
        lemma_filter_shape_kept(s.drop_last(), min_area);
        let rest = filter_shape_spec(s.drop_last(), min_area);
        let result = filter_shape_spec(s, min_area);
        assert forall|j: int| 0 <= j < result.len() implies keep_contour(
            #[trigger] result[j],
            min_area,
        ) by {
            if j < rest.len() {
                assert(result[j] == rest[j]);
            } else {
                assert(result[j] == s.last());
            }
        }
    }
}

/// Every shape that `filter_shapes_spec` keeps is nonempty and contains
/// only contours satisfying `keep_contour`.
pub proof fn lemma_filter_shapes_kept(s: Seq<Seq<Seq<(int, int)>>>, min_area: int)
    ensures
        forall|i: int|
            0 <= i < filter_shapes_spec(s, min_area).len() ==> (#[trigger] filter_shapes_spec(
                s,
                min_area,
            )[i]).len() > 0,
        forall|i: int, j: int|
            0 <= i < filter_shapes_spec(s, min_area).len() && 0 <= j < filter_shapes_spec(
                s,
                min_area,
            )[i].len() ==> keep_contour(#[trigger] filter_shapes_spec(s, min_area)[i][j], min_area),
    decreases s.len(),
{
    if s.len() > 0 {
        lemma_filter_shapes_kept(s.drop_last(), min_area);
        lemma_filter_shape_kept(s.last(), min_area);
        let rest = filter_shapes_spec(s.drop_last(), min_area);
        let filtered = filter_shape_spec(s.last(), min_area);
        let result = filter_shapes_spec(s, min_area);
        assert forall|i: int| 0 <= i < result.len() implies (#[trigger] result[i]).len() > 0 by {
            if i < rest.len() {
                assert(result[i] == rest[i]);
            } else {
                assert(result[i] == filtered);
            }
        }
        assert forall|i: int, j: int|
            0 <= i < result.len() && 0 <= j < result[i].len() implies keep_contour(
            #[trigger] result[i][j],
            min_area,
        ) by {
            if i < rest.len() {
                assert(result[i] == rest[i]);
            } else {
                assert(result[i] == filtered);
            }
        }
    }
}

/// Appending a contour extends a shape's pair view by the contour's view.
proof fn lemma_sview_push(prev: Seq<Contour>, c: Contour)
    ensures
        sview(prev.push(c)) == sview(prev).push(cview(c@)),
{
    assert forall|k: int| 0 <= k < prev.len() + 1 implies sview(prev.push(c))[k] == sview(
        prev,
    ).push(cview(c@))[k] by {
        if k < prev.len() {
            assert(sview(prev)[k] == cview(prev[k]@));
        }
    }
    assert(sview(prev.push(c)) =~~= sview(prev).push(cview(c@)));
}

/// Appending a shape extends a collection's pair view by the shape's view.
proof fn lemma_ssview_push(prev: Seq<Shape>, s: Shape)
    ensures
        ssview(prev.push(s)) == ssview(prev).push(sview(s@)),
{
    assert forall|k: int| 0 <= k < prev.len() + 1 implies ssview(prev.push(s))[k] == ssview(
        prev,
    ).push(sview(s@))[k] by {
        if k < prev.len() {
            assert(ssview(prev)[k] == sview(prev[k]@));
        }
    }
    assert(ssview(prev.push(s)) =~~= ssview(prev).push(sview(s@)));
}

/// Reverses the point order of a contour.
pub fn reverse_contour(c: &Contour) -> (r: Contour)
    ensures
        cview(r@) == cview(c@).reverse(),
{
    let n = c.len();
    let mut out: Contour = Vec::new();
    let mut i: usize = 0;
    while i < n
        invariant
            0 <= i <= n,
            n == c@.len(),
            out@.len() == i,
            forall|k: int| 0 <= k < i ==> out@[k] == c@[n - 1 - k],
        decreases n - i,
    {
        out.push(c[n - 1 - i]);
        i = i + 1;
    }
    proof {
        assert forall|k: int| 0 <= k < n implies cview(out@)[k] == cview(c@).reverse()[k] by {
            assert(cview(out@)[k] == crate::geom::pt(out@[k]));
            assert(cview(c@).reverse()[k] == cview(c@)[n - 1 - k]);
            assert(cview(c@)[n - 1 - k] == crate::geom::pt(c@[n - 1 - k]));
        }
        assert(cview(out@) =~= cview(c@).reverse());
    }
    out
}

/// Reverses every contour of every shape.
pub fn reverse_shapes(s: &Shapes) -> (r: Shapes)
    ensures
        ssview(r@) == reverse_all(ssview(s@)),
{
    let n = s.len();
    let mut out: Shapes = Vec::new();
    let mut i: usize = 0;
    while i < n
        invariant
            0 <= i <= n,
            n == s@.len(),
            ssview(out@) == reverse_all(ssview(s@)).subrange(0, i as int),
        decreases n - i,
    {
        let shape = &s[i];
        let m = shape.len();
        let mut rev: Shape = Vec::new();
        let mut j: usize = 0;
        while j < m
            invariant
                0 <= j <= m,
                m == shape@.len(),
                sview(rev@) == reverse_contours(sview(shape@)).subrange(0, j as int),
            decreases m - j,
        {
            let ghost prev = rev@;
            let contour = reverse_contour(&shape[j]);
            rev.push(contour);
            proof {
                lemma_sview_push(prev, rev@.last());
                assert(sview(shape@)[j as int] == cview(shape@[j as int]@));
                assert(sview(rev@) =~~= reverse_contours(sview(shape@)).subrange(0, j as int + 1));
            }
            j = j + 1;
        }
        proof {
            assert(reverse_contours(sview(shape@)).subrange(0, m as int) =~= reverse_contours(
                sview(shape@),
            ));
        }
        let ghost prev_out = out@;
        out.push(rev);
        proof {
            lemma_ssview_push(prev_out, out@.last());
            assert(reverse_all(ssview(s@))[i as int] == reverse_contours(sview(s@[i as int]@)));
            assert(ssview(out@) =~~= reverse_all(ssview(s@)).subrange(0, i as int + 1));
        }
        i = i + 1;
    }
    proof {
        assert(reverse_all(ssview(s@)).subrange(0, n as int) =~= reverse_all(ssview(s@)));
    }
    out
}

/// Keeps the contours that pass the length and area checks, dropping
/// shapes left empty.
pub fn filter_shapes(s: &Shapes, min_area: u64) -> (r: Shapes)
    ensures
        ssview(r@) == filter_shapes_spec(ssview(s@), min_area as int),
{
    let n = s.len();
    let mut out: Shapes = Vec::new();
    let mut i: usize = 0;
    while i < n
        invariant
            0 <= i <= n,
            n == s@.len(),
            ssview(out@) == filter_shapes_spec(ssview(s@).subrange(0, i as int), min_area as int),
        decreases n - i,
    {
        proof {
            assert(ssview(s@).subrange(0, i as int + 1).drop_last() =~= ssview(s@).subrange(
                0,
                i as int,
            ));
            assert(ssview(s@)[i as int] == sview(s@[i as int]@));
        }
        let shape = &s[i];
        let m = shape.len();
        let mut kept: Shape = Vec::new();
        let mut j: usize = 0;
        while j < m
            invariant
                0 <= j <= m,
                m == shape@.len(),
                sview(kept@) == filter_shape_spec(sview(shape@).subrange(0, j as int), min_area as int),
            decreases m - j,
        {
            proof {
                assert(sview(shape@).subrange(0, j as int + 1).drop_last() =~= sview(
                    shape@,
                ).subrange(0, j as int));
                assert(sview(shape@)[j as int] == cview(shape@[j as int]@));
            }
            let contour = &shape[j];
            let keep = if contour.len() < 3 {
                false
            } else if min_area == 0 {
                true
            } else {
                let a = crate::area::contour_abs_double_area(contour);
                a / 2 >= min_area as u128
            };
            if keep {
                let ghost prev = kept@;
                kept.push(contour.clone());
                proof {
                    assert(kept@.last()@ == shape@[j as int]@);
                    lemma_sview_push(prev, kept@.last());
                }
            }
            j = j + 1;
        }
        proof {
            assert(sview(shape@).subrange(0, m as int) =~= sview(shape@));
        }
        if kept.len() > 0 {
            let ghost prev_out = out@;
            out.push(kept);
            proof {
                lemma_ssview_push(prev_out, out@.last());
            }
        }
        i = i + 1;
    }
    proof {
        assert(ssview(s@).subrange(0, n as int) =~= ssview(s@));
    }
    out
}

/// Applies the output options to an extraction result: reverses contours
/// for clockwise output, then filters by length and minimum area.
pub fn apply_output_options(s: Shapes, options: &OverlayOptions) -> (r: Shapes)
    ensures
        ssview(r@) == post_process(
            ssview(s@),
            dir_code(options.output_direction),
            options.min_output_area as int,
        ),
{
    let oriented_shapes = match options.output_direction {
        CoreDirection::CounterClockwise => s,
        CoreDirection::Clockwise => reverse_shapes(&s),
    };
    filter_shapes(&oriented_shapes, options.min_output_area)
}

} // verus!

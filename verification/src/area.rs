//! Signed areas of contours on the integer grid.
//!
//! The double of a contour's signed area is the shoelace sum of its edge
//! cross-terms; it is an exact integer. With 32-bit coordinates every
//! cross-term fits in 64 bits and the running sum fits in 128 bits, so the
//! computation below is proved free of overflow for every input. The spec
//! functions are stated over coordinate-pair views, the language shared by
//! every contract of the crate.

use vstd::prelude::*;

use crate::geom::Contour;
use crate::geom::Shape;
use crate::geom::Shapes;
use crate::geom::cview;
use crate::geom::sview;
use crate::geom::ssview;

verus! {

/// The cross-term of edge `i`: the edge runs from point `i` to point
/// `i + 1`, wrapping around to close the contour.
pub open spec fn edge_term(c: Seq<(int, int)>, i: int) -> int
    recommends
        0 <= i < c.len(),
{
    let j = if i + 1 == c.len() { 0int } else { i + 1 };
    c[i].0 * c[j].1 - c[j].0 * c[i].1
}

/// The shoelace sum over the first `k` edges.
pub open spec fn partial_double_area(c: Seq<(int, int)>, k: int) -> int
    decreases k,
{
    if k <= 0 {
        0
    } else {
        partial_double_area(c, k - 1) + edge_term(c, k - 1)
    }
}

/// Twice the signed area of a contour: positive for counter-clockwise
/// winding, negative for clockwise, zero for degenerate contours.
pub open spec fn signed_double_area(c: Seq<(int, int)>) -> int {
    partial_double_area(c, c.len() as int)
}

/// Twice the absolute area of a contour.
pub open spec fn abs_double_area(c: Seq<(int, int)>) -> int {
    let a = signed_double_area(c);
    if a < 0 {
        -a
    } else {
        a
    }
}

/// Every coordinate of the view fits in 32 bits.
pub open spec fn view_fits_i32(c: Seq<(int, int)>) -> bool {
    forall|i: int|
        0 <= i < c.len() ==> -0x8000_0000 <= (#[trigger] c[i]).0 <= 0x7fff_ffff && -0x8000_0000
            <= c[i].1 <= 0x7fff_ffff
}

/// Every partial shoelace sum of `k` edges of a 32-bit contour is bounded
/// by `k * 2^63`.
pub proof fn lemma_partial_double_area_bound(c: Seq<(int, int)>, k: int)
    requires
        0 <= k <= c.len(),
        view_fits_i32(c),
    ensures
        -(k * 0x8000_0000_0000_0000) <= partial_double_area(c, k) <= k * 0x8000_0000_0000_0000,
    decreases k,
{
    if k > 0 {
        lemma_partial_double_area_bound(c, k - 1);
        let i = k - 1;
        let j = if i + 1 == c.len() { 0int } else { i + 1 };
        let ax = c[i].0;
        let ay = c[i].1;
        let bx = c[j].0;
        let by = c[j].1;
        assert(-0x4000_0000_0000_0000 <= ax * by <= 0x4000_0000_0000_0000) by (nonlinear_arith)
            requires
                -0x8000_0000 <= ax <= 0x7fff_ffff,
                -0x8000_0000 <= by <= 0x7fff_ffff,
        ;
        assert(-0x4000_0000_0000_0000 <= bx * ay <= 0x4000_0000_0000_0000) by (nonlinear_arith)
            requires
                -0x8000_0000 <= bx <= 0x7fff_ffff,
                -0x8000_0000 <= ay <= 0x7fff_ffff,
        ;
    }
}

/// The view of a contour of 32-bit points always fits in 32 bits.
pub proof fn lemma_cview_fits(c: Seq<crate::geom::Point>)
    ensures
        view_fits_i32(cview(c)),
        cview(c).len() == c.len(),
{
    assert forall|i: int| 0 <= i < cview(c).len() implies -0x8000_0000 <= (#[trigger] cview(
        c,
    )[i]).0 <= 0x7fff_ffff && -0x8000_0000 <= cview(c)[i].1 <= 0x7fff_ffff by {
        assert(cview(c)[i] == crate::geom::pt(c[i]));
    }
}

/// Computes twice the signed area of a contour.
pub fn contour_double_area(c: &Contour) -> (a: i128)
    ensures
        a as int == signed_double_area(cview(c@)),
{
    let n = c.len();
    let mut acc: i128 = 0;
    let mut i: usize = 0;
    while i < n
        invariant
            0 <= i <= n,
            n == c@.len(),
            acc as int == partial_double_area(cview(c@), i as int),
        decreases n - i,
    {
        let j = if i + 1 == n { 0 } else { i + 1 };
        proof {
            lemma_cview_fits(c@);
            lemma_partial_double_area_bound(cview(c@), i as int);
            lemma_partial_double_area_bound(cview(c@), i as int + 1);
            assert(cview(c@)[i as int] == crate::geom::pt(c@[i as int]));
            assert(cview(c@)[j as int] == crate::geom::pt(c@[j as int]));
            let ax = c@[i as int].x as int;
            let ay = c@[i as int].y as int;
            let bx = c@[j as int].x as int;
            let by = c@[j as int].y as int;
            assert(-0x4000_0000_0000_0000 <= ax * by <= 0x4000_0000_0000_0000) by (nonlinear_arith)
                requires
                    -0x8000_0000 <= ax <= 0x7fff_ffff,
                    -0x8000_0000 <= by <= 0x7fff_ffff,
            ;
            assert(-0x4000_0000_0000_0000 <= bx * ay <= 0x4000_0000_0000_0000) by (nonlinear_arith)
                requires
                    -0x8000_0000 <= bx <= 0x7fff_ffff,
                    -0x8000_0000 <= ay <= 0x7fff_ffff,
            ;
        }
        let t = (c[i].x as i128) * (c[j].y as i128) - (c[j].x as i128) * (c[i].y as i128);
        acc = acc + t;
        i = i + 1;
    }
    acc
}

/// Computes twice the absolute area of a contour.
pub fn contour_abs_double_area(c: &Contour) -> (a: u128)
    ensures
        a as int == abs_double_area(cview(c@)),
{
    let n = c.len();
    proof {
        lemma_cview_fits(c@);
        lemma_partial_double_area_bound(cview(c@), n as int);
        assert(n as int * 0x8000_0000_0000_0000 <= 0xffff_ffff_ffff_ffff * 0x8000_0000_0000_0000)
            by (nonlinear_arith)
            requires
                0 <= n as int <= 0xffff_ffff_ffff_ffff,
        ;
    }
    let signed = contour_double_area(c);
    if signed < 0 {
        (-signed) as u128
    } else {
        signed as u128
    }
}

/// The shoelace sum of the first `k` edges of a reversed contour equals
/// the negated sum of the last `k` non-closing edges of the contour.
proof fn lemma_reverse_partial(c: Seq<(int, int)>, k: int)
    requires
        c.len() >= 1,
        0 <= k <= c.len() - 1,
    ensures
        partial_double_area(c.reverse(), k) == -(partial_double_area(c, c.len() - 1)
            - partial_double_area(c, c.len() - 1 - k)),
    decreases k,
{
    let n = c.len() as int;
    if k == 0 {
        assert(partial_double_area(c.reverse(), 0) == 0);
    } else {
        lemma_reverse_partial(c, k - 1);
        // The reversed edge `k - 1` runs from `c[n - k]` to `c[n - 1 - k]`,
        // the original edge `n - 1 - k` backwards.
        assert(c.reverse()[k - 1] == c[n - k]);
        assert(c.reverse()[k] == c[n - 1 - k]);
        assert(edge_term(c.reverse(), k - 1) == -edge_term(c, n - 1 - k));
        assert(partial_double_area(c, n - k) == partial_double_area(c, n - 1 - k) + edge_term(
            c,
            n - 1 - k,
        ));
    }
}

/// Reversing a contour negates its signed area: the same region is
/// traced with the opposite winding, so its absolute area is unchanged.
pub proof fn lemma_reverse_negates_area(c: Seq<(int, int)>)
    ensures
        signed_double_area(c.reverse()) == -signed_double_area(c),
        abs_double_area(c.reverse()) == abs_double_area(c),
{
    let n = c.len() as int;
    if n == 0 {
        assert(signed_double_area(c.reverse()) == 0);
        assert(signed_double_area(c) == 0);
    } else {
        lemma_reverse_partial(c, n - 1);
        // The reversed closing edge runs from `c[0]` back to `c[n - 1]`,
        // the original closing edge backwards.
        assert(c.reverse()[n - 1] == c[0]);
        assert(c.reverse()[0] == c[n - 1]);
        assert(edge_term(c.reverse(), n - 1) == -edge_term(c, n - 1));
        assert(partial_double_area(c.reverse(), n) == partial_double_area(c.reverse(), n - 1)
            + edge_term(c.reverse(), n - 1));
        assert(partial_double_area(c, n) == partial_double_area(c, n - 1) + edge_term(c, n - 1));
    }
}

/// The sum of `abs_double_area` over the first `k` contours of a shape.
pub open spec fn partial_shape_area(s: Seq<Seq<(int, int)>>, k: int) -> int
    decreases k,
{
    if k <= 0 {
        0
    } else {
        partial_shape_area(s, k - 1) + abs_double_area(s[k - 1])
    }
}

/// Twice the summed absolute contour area of a shape.
pub open spec fn shape_abs_double_area(s: Seq<Seq<(int, int)>>) -> int {
    partial_shape_area(s, s.len() as int)
}

/// The sum of `shape_abs_double_area` over the first `k` shapes.
pub open spec fn partial_shapes_area(s: Seq<Seq<Seq<(int, int)>>>, k: int) -> int
    decreases k,
{
    if k <= 0 {
        0
    } else {
        partial_shapes_area(s, k - 1) + shape_abs_double_area(s[k - 1])
    }
}

/// Twice the summed absolute contour area of a shape collection.
pub open spec fn shapes_abs_double_area(s: Seq<Seq<Seq<(int, int)>>>) -> int {
    partial_shapes_area(s, s.len() as int)
}

/// Partial contour-area sums grow with the number of contours.
pub proof fn lemma_partial_area_monotonic(s: Seq<Seq<(int, int)>>, k1: int, k2: int)
    requires
        0 <= k1 <= k2 <= s.len(),
    ensures
        partial_shape_area(s, k1) <= partial_shape_area(s, k2),
    decreases k2 - k1,
{
    if k1 < k2 {
        lemma_partial_area_monotonic(s, k1, k2 - 1);
    }
}

/// Partial contour-area sums are never negative.
pub proof fn lemma_partial_area_nonneg(s: Seq<Seq<(int, int)>>, k: int)
    requires
        0 <= k <= s.len(),
    ensures
        partial_shape_area(s, k) >= 0,
    decreases k,
{
    if k > 0 {
        lemma_partial_area_nonneg(s, k - 1);
    }
}

/// Partial shape-area sums of a collection grow with the number of shapes.
pub proof fn lemma_partial_shapes_area_monotonic(s: Seq<Seq<Seq<(int, int)>>>, k1: int, k2: int)
    requires
        0 <= k1 <= k2 <= s.len(),
    ensures
        partial_shapes_area(s, k1) <= partial_shapes_area(s, k2),
    decreases k2 - k1,
{
    if k1 < k2 {
        lemma_partial_shapes_area_monotonic(s, k1, k2 - 1);
        lemma_partial_area_nonneg(s[k2 - 1], s[k2 - 1].len() as int);
    }
}

/// Computes twice the summed absolute contour area of a shape, or `None`
/// if the sum does not fit in 128 bits.
pub fn shape_total_area(s: &Shape) -> (r: Option<u128>)
    ensures
        r is Some ==> r->0 as int == shape_abs_double_area(sview(s@)),
        r is None ==> shape_abs_double_area(sview(s@)) > u128::MAX,
{
    let mut acc: u128 = 0;
    let mut i: usize = 0;
    let n = s.len();
    proof {
        assert(sview(s@).len() == n as int);
    }
    while i < n
        invariant
            0 <= i <= n,
            n == s@.len(),
            sview(s@).len() == n as int,
            acc as int == partial_shape_area(sview(s@), i as int),
        decreases n - i,
    {
        proof {
            assert(sview(s@)[i as int] == cview(s@[i as int]@));
        }
        let a = contour_abs_double_area(&s[i]);
        if acc > u128::MAX - a {
            proof {
                lemma_partial_area_monotonic(sview(s@), i as int + 1, n as int);
            }
            return None;
        }
        acc = acc + a;
        i = i + 1;
    }
    Some(acc)
}

/// Computes twice the summed absolute contour area of a shape collection,
/// or `None` if the sum does not fit in 128 bits.
pub fn shapes_total_area(s: &Shapes) -> (r: Option<u128>)
    ensures
        r is Some ==> r->0 as int == shapes_abs_double_area(ssview(s@)),
        r is None ==> shapes_abs_double_area(ssview(s@)) > u128::MAX,
{
    let mut acc: u128 = 0;
    let mut i: usize = 0;
    let n = s.len();
    proof {
        assert(ssview(s@).len() == n as int);
    }
    while i < n
        invariant
            0 <= i <= n,
            n == s@.len(),
            ssview(s@).len() == n as int,
            acc as int == partial_shapes_area(ssview(s@), i as int),
        decreases n - i,
    {
        proof {
            assert(ssview(s@)[i as int] == sview(s@[i as int]@));
        }
        let a = match shape_total_area(&s[i]) {
            Some(a) => a,
            None => {
                proof {
                    lemma_partial_shapes_area_monotonic(ssview(s@), i as int + 1, n as int);
                }
                return None;
            },
        };
        if acc > u128::MAX - a {
            proof {
                lemma_partial_shapes_area_monotonic(ssview(s@), i as int + 1, n as int);
            }
            return None;
        }
        acc = acc + a;
        i = i + 1;
    }
    Some(acc)
}

} // verus!

//! What holds of every rectangle: the laws that tie the operations together,
//! stated over the same spec functions as the operations' contracts.

use vstd::prelude::*;
use crate::distance::is_floor_sqrt;
use crate::mbr::MBR;
use crate::predicates::TOLERANCE;

verus! {

/// A rectangle spanned by two corners is normalized, and is the same rectangle
/// whichever corner is given first.
pub proof fn lemma_spanning_normalized(x1: i32, y1: i32, x2: i32, y2: i32)
    ensures
        MBR::spanning(x1, y1, x2, y2).is_normalized(),
        MBR::spanning(x1, y1, x2, y2) == MBR::spanning(x2, y2, x1, y1),
        MBR::spanning(x1, y1, x2, y2) == MBR::spanning(x1, y2, x2, y1),
{
}

/// The area of a normalized rectangle is not negative, and is its width times
/// its height.
pub proof fn lemma_area_nonnegative(m: MBR)
    requires
        m.is_normalized(),
    ensures
        m.spec_width() >= 0,
        m.spec_height() >= 0,
        m.spec_area() >= 0,
        m.spec_area() == m.spec_width() * m.spec_height(),
{
    let w = m.spec_width();
    let h = m.spec_height();
    assert(w * h >= 0) by (nonlinear_arith)
        requires
            w >= 0,
            h >= 0,
    ;
}

/// Every rectangle equals itself.
pub proof fn lemma_equals_reflexive(m: MBR)
    ensures
        m.spec_equals(m),
{
}

/// Rectangles whose bounds differ by less than the tolerance, each from its
/// counterpart, are equal; on the grid they are then the same rectangle.
pub proof fn lemma_equals_within_tolerance(a: MBR, b: MBR)
    requires
        vstd::math::abs(a.minx - b.minx) < TOLERANCE,
        vstd::math::abs(a.miny - b.miny) < TOLERANCE,
        vstd::math::abs(a.maxx - b.maxx) < TOLERANCE,
        vstd::math::abs(a.maxy - b.maxy) < TOLERANCE,
    ensures
        a.spec_equals(b),
        a == b,
{
}

/// Equality up to the tolerance is equality of the four bounds.
pub proof fn lemma_equals_is_identity(a: MBR, b: MBR)
    ensures
        a.spec_equals(b) <==> a == b,
{
}

/// Whether two rectangles intersect does not depend on which is asked.
pub proof fn lemma_intersects_symmetric(a: MBR, b: MBR)
    ensures
        a.spec_intersects(b) == b.spec_intersects(a),
{
}

/// The intersection of two rectangles does not depend on their order.
pub proof fn lemma_intersection_symmetric(a: MBR, b: MBR)
    ensures
        a.spec_intersection(b) == b.spec_intersection(a),
{
}

/// Where two rectangles have an intersection, both contain it.
pub proof fn lemma_intersection_contained(a: MBR, b: MBR)
    requires
        a.spec_intersection(b) is Some,
    ensures
        a.spec_contains(a.spec_intersection(b)->0),
        b.spec_contains(a.spec_intersection(b)->0),
{
}

/// The intersection of two normalized rectangles is normalized, and holds
/// exactly the points that lie in both.
pub proof fn lemma_intersection_common_points(a: MBR, b: MBR)
    requires
        a.is_normalized(),
        b.is_normalized(),
        a.spec_intersection(b) is Some,
    ensures
        a.spec_intersection(b)->0.is_normalized(),
        forall|x: int, y: int|
            #![trigger a.spec_intersection(b)->0.covers(x, y)]
            a.spec_intersection(b)->0.covers(x, y) <==> a.covers(x, y) && b.covers(x, y),
{
}

/// Two normalized rectangles intersect exactly if some point lies in both.
pub proof fn lemma_intersects_common_point(a: MBR, b: MBR)
    requires
        a.is_normalized(),
        b.is_normalized(),
    ensures
        a.spec_intersects(b) <==> exists|x: int, y: int| a.covers(x, y) && b.covers(x, y),
{
    if a.spec_intersects(b) {
        let m = a.spec_intersection(b)->0;
        assert(a.covers(m.minx as int, m.miny as int) && b.covers(m.minx as int, m.miny as int));
    }
}

/// Two rectangles are disjoint exactly if they have no intersection.
pub proof fn lemma_disjoint_no_intersection(a: MBR, b: MBR)
    ensures
        !a.spec_intersects(b) <==> a.spec_intersection(b) is None,
{
}

/// The union of two rectangles contains both.
pub proof fn lemma_union_contains(a: MBR, b: MBR)
    ensures
        a.spec_union(b).spec_contains(a),
        a.spec_union(b).spec_contains(b),
{
}

/// The union of two normalized rectangles is normalized and has at least the
/// area of either.
pub proof fn lemma_union_area(a: MBR, b: MBR)
    requires
        a.is_normalized(),
        b.is_normalized(),
    ensures
        a.spec_union(b).is_normalized(),
        a.spec_union(b).spec_area() >= a.spec_area(),
        a.spec_union(b).spec_area() >= b.spec_area(),
{
    let u = a.spec_union(b);
    lemma_extent_product(a.spec_width(), a.spec_height(), u.spec_width(), u.spec_height());
    lemma_extent_product(b.spec_width(), b.spec_height(), u.spec_width(), u.spec_height());
}

/// Extents that are not negative have a product that grows with each of them.
proof fn lemma_extent_product(w1: int, h1: int, w2: int, h2: int)
    by (nonlinear_arith)
    requires
        0 <= w1 <= w2,
        0 <= h1 <= h2,
    ensures
        w1 * h1 <= w2 * h2,
{
}

/// The union of two rectangles is the smallest rectangle that contains both:
/// whatever contains both contains their union.
pub proof fn lemma_union_smallest(a: MBR, b: MBR, c: MBR)
    requires
        c.spec_contains(a),
        c.spec_contains(b),
    ensures
        c.spec_contains(a.spec_union(b)),
{
}

/// A rectangle contains a normalized one exactly if it holds each of its points.
pub proof fn lemma_contains_all_points(a: MBR, b: MBR)
    requires
        b.is_normalized(),
    ensures
        a.spec_contains(b) <==> forall|x: int, y: int| b.covers(x, y) ==> a.covers(x, y),
{
    if forall|x: int, y: int| b.covers(x, y) ==> a.covers(x, y) {
        assert(b.covers(b.minx as int, b.miny as int));
        assert(b.covers(b.maxx as int, b.maxy as int));
    }
}

/// Widening a normalized rectangle towards a point gives its union with that
/// point: a normalized rectangle that holds the point.
pub proof fn lemma_expand_xy_is_union(m: MBR, x: i32, y: i32)
    requires
        m.is_normalized(),
    ensures
        m.spec_expand_xy(x, y) == m.spec_union(MBR::at_point(x, y)),
        m.spec_expand_xy(x, y).is_normalized(),
        m.spec_expand_xy(x, y).covers(x as int, y as int),
        m.spec_expand_xy(x, y).spec_contains(m),
{
}

/// Rectangles that intersect are at distance zero, squared or not.
pub proof fn lemma_distance_zero_on_overlap(a: MBR, b: MBR, d: int)
    requires
        a.spec_intersects(b),
        is_floor_sqrt(a.spec_distance_square(b), d),
    ensures
        a.spec_distance_square(b) == 0,
        d == 0,
{
    if d >= 1 {
        assert(d * d >= 1) by (nonlinear_arith)
            requires
                d >= 1,
        ;
    }
}

/// Normalized rectangles are at distance zero exactly if they intersect.
pub proof fn lemma_distance_zero_iff_overlap(a: MBR, b: MBR)
    requires
        a.is_normalized(),
        b.is_normalized(),
    ensures
        a.spec_distance_square(b) == 0 <==> a.spec_intersects(b),
{
    let gx = a.spec_gap_x(b);
    let gy = a.spec_gap_y(b);
    assert(gx * gx >= 0 && gy * gy >= 0 && (gx != 0 ==> gx * gx > 0) && (gy != 0 ==> gy * gy > 0))
        by (nonlinear_arith);
}

/// The distance squared is the squared distance up to rounding: it is not above
/// it, and the next whole distance squared is.
pub proof fn lemma_distance_square_consistent(a: MBR, b: MBR, d: int)
    requires
        is_floor_sqrt(a.spec_distance_square(b), d),
    ensures
        d * d <= a.spec_distance_square(b) < (d + 1) * (d + 1),
{
}

/// Where the squared distance is the square of a whole number, that number is
/// the distance, and the distance squared is the squared distance exactly.
pub proof fn lemma_distance_exact_on_squares(a: MBR, b: MBR, d: int, k: int)
    requires
        is_floor_sqrt(a.spec_distance_square(b), d),
        k >= 0,
        k * k == a.spec_distance_square(b),
    ensures
        d == k,
        d * d == a.spec_distance_square(b),
{
    assert((k + 1) * (k + 1) == k * k + 2 * k + 1) by (nonlinear_arith);
    assert((d + 1) * (d + 1) == d * d + 2 * d + 1) by (nonlinear_arith);
    if k < d {
        crate::distance::lemma_square_monotone(k + 1, d);
    } else if k > d {
        crate::distance::lemma_square_monotone(d + 1, k);
    }
}

/// The distance between two normalized rectangles does not depend on their order.
pub proof fn lemma_distance_symmetric(a: MBR, b: MBR)
    requires
        a.is_normalized(),
        b.is_normalized(),
    ensures
        a.spec_gap_x(b) == b.spec_gap_x(a),
        a.spec_gap_y(b) == b.spec_gap_y(a),
        a.spec_distance_square(b) == b.spec_distance_square(a),
{
}

} // verus!

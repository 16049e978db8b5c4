//! Equality, containment and intersection tests. Tests named "completely" leave
//! the boundary out; all the others count touching edges as contact.

use vstd::prelude::*;
use crate::mbr::MBR;

verus! {

/// Two coordinates closer than this are taken to be the same coordinate. On the
/// integer grid distinct coordinates are at least one unit apart.
pub const TOLERANCE: i64 = 1;

/// `a` and `b` differ by less than [`TOLERANCE`].
pub open spec fn within_tolerance(a: int, b: int) -> bool {
    -TOLERANCE < a - b < TOLERANCE
}

/// Compares two coordinates up to [`TOLERANCE`].
#[inline]
pub fn feq(a: i32, b: i32) -> (r: bool)
    ensures
        r == within_tolerance(a as int, b as int),
        r == (a == b),
{
    let d: i64 = a as i64 - b as i64;
    -TOLERANCE < d && d < TOLERANCE
}

impl MBR {
    /// All four bounds agree up to [`TOLERANCE`].
    pub open spec fn spec_equals(self, other: MBR) -> bool {
        &&& within_tolerance(self.maxx as int, other.maxx as int)
        &&& within_tolerance(self.maxy as int, other.maxy as int)
        &&& within_tolerance(self.minx as int, other.minx as int)
        &&& within_tolerance(self.miny as int, other.miny as int)
    }

    /// The rectangle has neither width nor height.
    pub open spec fn spec_is_point(self) -> bool {
        self.minx == self.maxx && self.miny == self.maxy
    }

    /// `other` lies within the rectangle; its edges may lie on the rectangle's.
    pub open spec fn spec_contains(self, other: MBR) -> bool {
        &&& other.minx >= self.minx
        &&& other.miny >= self.miny
        &&& other.maxx <= self.maxx
        &&& other.maxy <= self.maxy
    }

    /// `other` lies within the rectangle and touches none of its edges.
    pub open spec fn spec_completely_contains(self, other: MBR) -> bool {
        &&& other.minx > self.minx
        &&& other.miny > self.miny
        &&& other.maxx < self.maxx
        &&& other.maxy < self.maxy
    }

    /// Neither rectangle lies wholly to one side of the other, along x or along y.
    pub open spec fn spec_intersects(self, other: MBR) -> bool {
        !(other.minx > self.maxx || other.maxx < self.minx || other.miny > self.maxy
            || other.maxy < self.miny)
    }

    /// Compares two rectangles bound by bound, up to [`TOLERANCE`].
    #[inline]
    pub fn equals(&self, other: &Self) -> (r: bool)
        ensures
            r == self.spec_equals(*other),
            r == (*self == *other),
    {
        feq(self.maxx, other.maxx) && feq(self.maxy, other.maxy) && feq(self.minx, other.minx)
            && feq(self.miny, other.miny)
    }

    /// Tells whether the rectangle is a single point: its two corners coincide,
    /// so that it has neither width nor height.
    #[inline]
    pub fn is_point(&self) -> (r: bool)
        ensures
            r == self.spec_is_point(),
            r == (self.spec_width() == 0 && self.spec_height() == 0),
    {
        feq(self.minx, self.maxx) && feq(self.miny, self.maxy)
    }

    /// Tells whether `other` lies within the rectangle, edges included.
    #[inline]
    pub fn contains(&self, other: &Self) -> (r: bool)
        ensures
            r == self.spec_contains(*other),
    {
        (other.minx >= self.minx) && (other.miny >= self.miny) && (other.maxx <= self.maxx) && (
        other.maxy <= self.maxy)
    }

    /// Tells whether the point `(x, y)` lies in the rectangle, edges included.
    #[inline]
    pub fn contains_xy(&self, x: i32, y: i32) -> (r: bool)
        ensures
            r == self.covers(x as int, y as int),
    {
        (x >= self.minx) && (x <= self.maxx) && (y >= self.miny) && (y <= self.maxy)
    }

    /// Tells whether the point `pt` lies in the rectangle, edges included.
    #[inline]
    pub fn contains_point(&self, pt: [i32; 2]) -> (r: bool)
        ensures
            r == self.covers(pt[0] as int, pt[1] as int),
    {
        self.contains_xy(pt[0], pt[1])
    }

    /// Tells whether `other` lies within the rectangle without touching its edges.
    #[inline]
    pub fn completely_contains(&self, other: &Self) -> (r: bool)
        ensures
            r == self.spec_completely_contains(*other),
    {
        (other.minx > self.minx) && (other.miny > self.miny) && (other.maxx < self.maxx) && (
        other.maxy < self.maxy)
    }

    /// Tells whether the point `(x, y)` lies in the rectangle and on none of its edges.
    #[inline]
    pub fn completely_contains_xy(&self, x: i32, y: i32) -> (r: bool)
        ensures
            r == self.covers_strictly(x as int, y as int),
    {
        (x > self.minx) && (x < self.maxx) && (y > self.miny) && (y < self.maxy)
    }

    /// Tells whether the point `pt` lies in the rectangle and on none of its edges.
    #[inline]
    pub fn completely_contains_point(&self, pt: [i32; 2]) -> (r: bool)
        ensures
            r == self.covers_strictly(pt[0] as int, pt[1] as int),
    {
        self.completely_contains_xy(pt[0], pt[1])
    }

    /// Tells whether the two rectangles have a point in common; touching edges count.
    #[inline]
    pub fn intersects(&self, other: &Self) -> (r: bool)
        ensures
            r == self.spec_intersects(*other),
    {
        !(other.minx > self.maxx || other.maxx < self.minx || other.miny > self.maxy
            || other.maxy < self.miny)
    }

    /// Tells whether the point whose coordinates lead the slice `pt` lies in the
    /// rectangle, edges included.
    #[inline]
    pub fn intersects_point(&self, pt: &[i32]) -> (r: bool)
        requires
            pt@.len() >= 2,
        ensures
            r == self.covers(pt@[0] as int, pt@[1] as int),
    {
        self.intersects_xy(pt[0], pt[1])
    }

    /// Tells whether the point `(x, y)` lies in the rectangle, edges included.
    #[inline]
    pub fn intersects_xy(&self, x: i32, y: i32) -> (r: bool)
        ensures
            r == self.covers(x as int, y as int),
    {
        self.contains_xy(x, y)
    }

    /// Tells whether the rectangle intersects the one spanned by the corners
    /// `pt1` and `pt2`, given in any order.
    pub fn intersects_bounds(&self, pt1: &[i32], pt2: &[i32]) -> (r: bool)
        requires
            pt1@.len() >= 2,
            pt2@.len() >= 2,
        ensures
            r == self.spec_intersects(MBR::spanning(pt1@[0], pt1@[1], pt2@[0], pt2@[1])),
    {
        let minq = if pt1[0] <= pt2[0] { pt1[0] } else { pt2[0] };
        let maxq = if pt1[0] >= pt2[0] { pt1[0] } else { pt2[0] };

        if self.minx > maxq || self.maxx < minq {
            return false;
        }
        let minq = if pt1[1] <= pt2[1] { pt1[1] } else { pt2[1] };
        let maxq = if pt1[1] >= pt2[1] { pt1[1] } else { pt2[1] };

        !(self.miny > maxq || self.maxy < minq)
    }

    /// Tells whether the two rectangles have no point in common.
    #[inline]
    pub fn disjoint(&self, m: &Self) -> (r: bool)
        ensures
            r == !self.spec_intersects(*m),
    {
        !self.intersects(m)
    }
}

} // verus!

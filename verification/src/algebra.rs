//! Intersection and union of rectangles, and the operations that grow or move one.

use vstd::prelude::*;
use crate::mbr::{hi, lo, MBR};

verus! {

/// Tells whether `v` is a coordinate.
fn in_range(v: i64) -> (r: bool)
    ensures
        r == (i32::MIN <= v <= i32::MAX),
{
    -0x8000_0000 <= v && v <= 0x7fff_ffff
}

impl MBR {
    /// The rectangle common to both, if they intersect.
    pub open spec fn spec_intersection(self, other: MBR) -> Option<MBR> {
        if self.spec_intersects(other) {
            Some(
                MBR {
                    minx: hi(self.minx, other.minx),
                    miny: hi(self.miny, other.miny),
                    maxx: lo(self.maxx, other.maxx),
                    maxy: lo(self.maxy, other.maxy),
                },
            )
        } else {
            None
        }
    }

    /// The rectangle that reaches as far as either does, on every side.
    pub open spec fn spec_union(self, other: MBR) -> MBR {
        MBR {
            minx: lo(self.minx, other.minx),
            miny: lo(self.miny, other.miny),
            maxx: hi(self.maxx, other.maxx),
            maxy: hi(self.maxy, other.maxy),
        }
    }

    /// The result of widening towards the point `(x, y)`: along each axis the
    /// lower bound drops to the coordinate if that is below it; otherwise the
    /// upper bound rises to the coordinate if that is above it.
    pub open spec fn spec_expand_xy(self, x: i32, y: i32) -> MBR {
        MBR {
            minx: if x < self.minx { x } else { self.minx },
            miny: if y < self.miny { y } else { self.miny },
            maxx: if x >= self.minx && x > self.maxx { x } else { self.maxx },
            maxy: if y >= self.miny && y > self.maxy { y } else { self.maxy },
        }
    }

    /// Moving the corners by `(dx, dy)` keeps every bound in the coordinate range.
    pub open spec fn can_translate(self, dx: i32, dy: i32) -> bool {
        &&& i32::MIN <= self.minx + dx <= i32::MAX
        &&& i32::MIN <= self.miny + dy <= i32::MAX
        &&& i32::MIN <= self.maxx + dx <= i32::MAX
        &&& i32::MIN <= self.maxy + dy <= i32::MAX
    }

    /// The rectangle with both corners moved by `(dx, dy)`.
    pub open spec fn spec_translate(self, dx: i32, dy: i32) -> MBR
        recommends
            self.can_translate(dx, dy),
    {
        MBR {
            minx: (self.minx + dx) as i32,
            miny: (self.miny + dy) as i32,
            maxx: (self.maxx + dx) as i32,
            maxy: (self.maxy + dy) as i32,
        }
    }

    /// Moving the lower-left corner by `(-dx, -dy)` and the upper-right one by
    /// `(dx, dy)` keeps every bound in the coordinate range.
    pub open spec fn can_expand_by(self, dx: i32, dy: i32) -> bool {
        &&& i32::MIN <= self.minx - dx <= i32::MAX
        &&& i32::MIN <= self.miny - dy <= i32::MAX
        &&& i32::MIN <= self.maxx + dx <= i32::MAX
        &&& i32::MIN <= self.maxy + dy <= i32::MAX
    }

    /// The rectangle spanned by the lower-left corner moved by `(-dx, -dy)` and
    /// the upper-right corner moved by `(dx, dy)`.
    pub open spec fn spec_expand_by(self, dx: i32, dy: i32) -> MBR
        recommends
            self.can_expand_by(dx, dy),
    {
        MBR::spanning(
            (self.minx - dx) as i32,
            (self.miny - dy) as i32,
            (self.maxx + dx) as i32,
            (self.maxy + dy) as i32,
        )
    }

    /// Returns the rectangle with both corners moved by `(dx, dy)`.
    pub fn translate(&self, dx: i32, dy: i32) -> (r: MBR)
        requires
            self.can_translate(dx, dy),
        ensures
            r == self.spec_translate(dx, dy),
            r.minx == self.minx + dx,
            r.miny == self.miny + dy,
            r.maxx == self.maxx + dx,
            r.maxy == self.maxy + dy,
            self.is_normalized() ==> r.is_normalized(),
    {
        MBR::new_raw(self.minx + dx, self.miny + dy, self.maxx + dx, self.maxy + dy)
    }

    /// Returns the rectangle with both corners moved by `(dx, dy)`, or `None`
    /// where a moved bound would leave the coordinate range.
    pub fn try_translate(&self, dx: i32, dy: i32) -> (r: Option<MBR>)
        ensures
            self.can_translate(dx, dy) ==> r == Some(self.spec_translate(dx, dy)),
            !self.can_translate(dx, dy) ==> r is None,
            self.is_normalized() && r is Some ==> r->0.is_normalized(),
    {
        if in_range(self.minx as i64 + dx as i64) && in_range(self.miny as i64 + dy as i64)
            && in_range(self.maxx as i64 + dx as i64) && in_range(self.maxy as i64 + dy as i64) {
            Some(self.translate(dx, dy))
        } else {
            None
        }
    }

    /// Computes the rectangle common to both, or `None` if they do not intersect.
    pub fn intersection(&self, other: &Self) -> (r: Option<MBR>)
        ensures
            r == self.spec_intersection(*other),
            r.is_some() == self.spec_intersects(*other),
            self.is_normalized() && other.is_normalized() && r is Some ==> r->0.is_normalized(),
    {
        if !self.intersects(other) {
            return None;
        }
        let minx = if self.minx > other.minx { self.minx } else { other.minx };
        let miny = if self.miny > other.miny { self.miny } else { other.miny };
        let maxx = if self.maxx < other.maxx { self.maxx } else { other.maxx };
        let maxy = if self.maxy < other.maxy { self.maxy } else { other.maxy };

        Some(MBR { minx, miny, maxx, maxy })
    }

    /// Computes the smallest rectangle that holds both.
    pub fn merge(&self, rhs: &Self) -> (r: MBR)
        ensures
            r == self.spec_union(*rhs),
            self.is_normalized() && rhs.is_normalized() ==> r.is_normalized(),
    {
        MBR {
            minx: if self.minx <= rhs.minx { self.minx } else { rhs.minx },
            miny: if self.miny <= rhs.miny { self.miny } else { rhs.miny },
            maxx: if self.maxx >= rhs.maxx { self.maxx } else { rhs.maxx },
            maxy: if self.maxy >= rhs.maxy { self.maxy } else { rhs.maxy },
        }
    }

    /// Computes the smallest rectangle that holds both; the rectangles need not meet.
    #[inline]
    pub fn union(&self, rhs: &Self) -> (r: MBR)
        ensures
            r == self.spec_union(*rhs),
            self.is_normalized() && rhs.is_normalized() ==> r.is_normalized(),
    {
        self.merge(rhs)
    }

    /// Widens the rectangle until it holds `other`, and hands it back for chaining.
    pub fn expand_to_include(&mut self, other: &Self) -> (r: &mut MBR)
        ensures
            *r == old(self).spec_union(*other),
            old(self).is_normalized() && other.is_normalized() ==> r.is_normalized(),
            *final(self) == *final(r),
    {
        self.minx = if other.minx <= self.minx { other.minx } else { self.minx };
        self.miny = if other.miny <= self.miny { other.miny } else { self.miny };

        self.maxx = if other.maxx >= self.maxx { other.maxx } else { self.maxx };
        self.maxy = if other.maxy >= self.maxy { other.maxy } else { self.maxy };
        self
    }

    /// Widens the rectangle towards the point `pt`, and hands it back for chaining.
    pub fn expand_to_include_point(&mut self, pt: [i32; 2]) -> (r: &mut Self)
        ensures
            *r == old(self).spec_expand_xy(pt[0], pt[1]),
            old(self).is_normalized() ==> r.is_normalized() && r.covers(pt[0] as int, pt[1] as int),
            *final(self) == *final(r),
    {
        self.expand_to_include_xy(pt[0], pt[1])
    }

    /// Widens the rectangle towards the point `(x, y)`, and hands it back for
    /// chaining. At most one bound moves along each axis, and none where the
    /// coordinate already lies between the two.
    pub fn expand_to_include_xy(&mut self, x: i32, y: i32) -> (r: &mut Self)
        ensures
            *r == old(self).spec_expand_xy(x, y),
            old(self).is_normalized() ==> r.is_normalized() && r.covers(x as int, y as int),
            *final(self) == *final(r),
    {
        if x < self.minx {
            self.minx = x
        } else if x > self.maxx {
            self.maxx = x
        }
        if y < self.miny {
            self.miny = y
        } else if y > self.maxy {
            self.maxy = y
        }
        self
    }

    /// Does what [`MBR::expand_by_delta`] does and returns `true`, or leaves the
    /// rectangle as it is and returns `false` where a moved bound would leave the
    /// coordinate range.
    pub fn try_expand_by_delta(&mut self, dx: i32, dy: i32) -> (r: bool)
        ensures
            r == old(self).can_expand_by(dx, dy),
            r ==> *final(self) == old(self).spec_expand_by(dx, dy) && final(self).is_normalized(),
            !r ==> *final(self) == *old(self),
    {
        if in_range(self.minx as i64 - dx as i64) && in_range(self.miny as i64 - dy as i64)
            && in_range(self.maxx as i64 + dx as i64) && in_range(self.maxy as i64 + dy as i64) {
            self.expand_by_delta(dx, dy);
            true
        } else {
            false
        }
    }

    /// Moves the lower-left corner by `(-dx, -dy)` and the upper-right one by
    /// `(dx, dy)`, orders the two corners again, and hands the rectangle back for
    /// chaining. A negative delta shrinks the rectangle; one that makes the
    /// corners pass each other leaves the rectangle they then span.
    pub fn expand_by_delta(&mut self, dx: i32, dy: i32) -> (r: &mut MBR)
        requires
            old(self).can_expand_by(dx, dy),
        ensures
            *r == old(self).spec_expand_by(dx, dy),
            r.is_normalized(),
            *final(self) == *final(r),
    {
        let (minx, miny) = (self.minx - dx, self.miny - dy);
        let (maxx, maxy) = (self.maxx + dx, self.maxy + dy);

        self.minx = if minx <= maxx { minx } else { maxx };
        self.miny = if miny <= maxy { miny } else { maxy };
        self.maxx = if minx >= maxx { minx } else { maxx };
        self.maxy = if miny >= maxy { miny } else { maxy };

        self
    }
}

} // verus!

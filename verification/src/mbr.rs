//! The rectangle type, its mathematical model, constructors and accessors.

use vstd::prelude::*;

verus! {

/// The smaller of two coordinates.
pub open spec fn lo(a: i32, b: i32) -> i32 {
    if a <= b {
        a
    } else {
        b
    }
}

/// The larger of two coordinates.
pub open spec fn hi(a: i32, b: i32) -> i32 {
    if a >= b {
        a
    } else {
        b
    }
}

/// A closed axis-aligned rectangle with corners `(minx, miny)` and `(maxx, maxy)`.
///
/// The fields are public and [`MBR::new_raw`] stores them unchecked, so a value
/// need not be normalized; [`MBR::is_normalized`] says when it is.
#[derive(Copy, Clone, Debug, PartialEq, Eq, Structural)]
pub struct MBR {
    pub minx: i32,
    pub miny: i32,
    pub maxx: i32,
    pub maxy: i32,
}

/// The position of a bound that a rectangle does not have: only the positions
/// 0 to 3 name one.
#[derive(Copy, Clone, Debug, PartialEq, Eq, Structural)]
pub struct OutOfRange {
    pub index: usize,
}

impl MBR {
    /// The four bounds in the order `minx`, `miny`, `maxx`, `maxy`.
    pub open spec fn bounds(self) -> Seq<i32> {
        seq![self.minx, self.miny, self.maxx, self.maxy]
    }

    /// The lower-left corner is not above or to the right of the upper-right one.
    pub open spec fn is_normalized(self) -> bool {
        self.minx <= self.maxx && self.miny <= self.maxy
    }

    /// The point `(x, y)` lies in the rectangle, edges included.
    pub open spec fn covers(self, x: int, y: int) -> bool {
        self.minx <= x <= self.maxx && self.miny <= y <= self.maxy
    }

    /// The point `(x, y)` lies in the rectangle and on none of its edges.
    pub open spec fn covers_strictly(self, x: int, y: int) -> bool {
        self.minx < x < self.maxx && self.miny < y < self.maxy
    }

    /// The rectangle spanned by two corners given in any order.
    pub open spec fn spanning(x1: i32, y1: i32, x2: i32, y2: i32) -> MBR {
        MBR { minx: lo(x1, x2), miny: lo(y1, y2), maxx: hi(x1, x2), maxy: hi(y1, y2) }
    }

    /// The rectangle that holds the single point `(x, y)`.
    pub open spec fn at_point(x: i32, y: i32) -> MBR {
        MBR { minx: x, miny: y, maxx: x, maxy: y }
    }

    /// Extent along x.
    pub open spec fn spec_width(self) -> int {
        self.maxx - self.minx
    }

    /// Extent along y.
    pub open spec fn spec_height(self) -> int {
        self.maxy - self.miny
    }

    /// Extent along x times extent along y.
    pub open spec fn spec_area(self) -> int {
        self.spec_width() * self.spec_height()
    }

    /// Builds the rectangle spanned by the corners `(x1, y1)` and `(x2, y2)`,
    /// whichever of them is the lower-left one.
    pub fn new(x1: i32, y1: i32, x2: i32, y2: i32) -> (r: MBR)
        ensures
            r == MBR::spanning(x1, y1, x2, y2),
            r.is_normalized(),
    {
        MBR {
            minx: if x1 <= x2 { x1 } else { x2 },
            miny: if y1 <= y2 { y1 } else { y2 },
            maxx: if x1 >= x2 { x1 } else { x2 },
            maxy: if y1 >= y2 { y1 } else { y2 },
        }
    }

    /// Stores the four bounds as given, without ordering them.
    ///
    /// The result is normalized only if the caller passed `minx <= maxx` and
    /// `miny <= maxy`.
    pub fn new_raw(minx: i32, miny: i32, maxx: i32, maxy: i32) -> (r: MBR)
        ensures
            r == (MBR { minx, miny, maxx, maxy }),
    {
        MBR { minx, miny, maxx, maxy }
    }

    /// The rectangle that holds only the origin.
    pub fn new_default() -> (r: MBR)
        ensures
            r == MBR::at_point(0, 0),
            r.is_normalized(),
    {
        MBR { minx: 0, miny: 0, maxx: 0, maxy: 0 }
    }

    /// Builds the rectangle spanned by the corners `(o[0], o[1])` and `(o[2], o[3])`.
    pub fn new_from_array(o: [i32; 4]) -> (r: MBR)
        ensures
            r == MBR::spanning(o[0], o[1], o[2], o[3]),
            r.is_normalized(),
    {
        MBR::new(o[0], o[1], o[2], o[3])
    }

    /// Builds the rectangle that holds the single point `pt`.
    pub fn new_from_pt(pt: [i32; 2]) -> (r: MBR)
        ensures
            r == MBR::at_point(pt[0], pt[1]),
            r.is_normalized(),
    {
        MBR { minx: pt[0], miny: pt[1], maxx: pt[0], maxy: pt[1] }
    }

    /// Builds the rectangle spanned by two corner points given in any order.
    pub fn new_from_bounds(ll: [i32; 2], ur: [i32; 2]) -> (r: MBR)
        ensures
            r == MBR::spanning(ll[0], ll[1], ur[0], ur[1]),
            r.is_normalized(),
    {
        MBR::new(ll[0], ll[1], ur[0], ur[1])
    }

    /// The rectangle itself, as its own bounding box.
    #[inline]
    pub fn bbox(&self) -> (r: &Self)
        ensures
            *r == *self,
    {
        self
    }

    /// A copy of the rectangle.
    #[inline]
    pub fn copy(&self) -> (r: Self)
        ensures
            r == *self,
    {
        *self
    }

    /// Extent along x: `maxx - minx`, negative if the bounds are out of order.
    #[inline]
    pub fn width(&self) -> (r: i64)
        ensures
            r == self.spec_width(),
    {
        self.maxx as i64 - self.minx as i64
    }

    /// Extent along y: `maxy - miny`, negative if the bounds are out of order.
    #[inline]
    pub fn height(&self) -> (r: i64)
        ensures
            r == self.spec_height(),
    {
        self.maxy as i64 - self.miny as i64
    }

    /// Area: width times height.
    #[inline]
    pub fn area(&self) -> (r: i128)
        ensures
            r == self.spec_area(),
    {
        let h: i128 = self.height() as i128;
        let w: i128 = self.width() as i128;
        assert(-0x1_0000_0000_0000_0000 <= h * w <= 0x1_0000_0000_0000_0000 && h * w == w * h)
            by (nonlinear_arith)
            requires
                -0x1_0000_0000 <= h <= 0x1_0000_0000,
                -0x1_0000_0000 <= w <= 0x1_0000_0000,
        ;
        h * w
    }

    /// The boundary as a closed ring of five points: lower-left, upper-left,
    /// upper-right, lower-right, and the lower-left again.
    pub fn as_poly_array(&self) -> (r: Vec<[i32; 2]>)
        ensures
            r@ == seq![
                [self.minx, self.miny],
                [self.minx, self.maxy],
                [self.maxx, self.maxy],
                [self.maxx, self.miny],
                [self.minx, self.miny],
            ],
    {
        let r = vec![
            [self.minx, self.miny],
            [self.minx, self.maxy],
            [self.maxx, self.maxy],
            [self.maxx, self.miny],
            [self.minx, self.miny],
        ];
        r
    }

    /// The bounds as `[minx, miny, maxx, maxy]`.
    pub fn as_array(&self) -> (r: [i32; 4])
        ensures
            r == [self.minx, self.miny, self.maxx, self.maxy],
    {
        [self.minx, self.miny, self.maxx, self.maxy]
    }

    /// The bound at position `index` of `minx`, `miny`, `maxx`, `maxy`, or the
    /// error that says that no bound has that position.
    pub fn bound_at(&self, index: usize) -> (r: Result<i32, OutOfRange>)
        ensures
            index < 4 ==> r == Ok::<i32, OutOfRange>(self.bounds()[index as int]),
            index >= 4 ==> r == Err::<i32, OutOfRange>(OutOfRange { index }),
    {
        if index == 0 {
            Ok(self.minx)
        } else if index == 1 {
            Ok(self.miny)
        } else if index == 2 {
            Ok(self.maxx)
        } else if index == 3 {
            Ok(self.maxy)
        } else {
            Err(OutOfRange { index })
        }
    }

    /// The bounds as `(minx, miny, maxx, maxy)`.
    pub fn as_tuple(&self) -> (r: (i32, i32, i32, i32))
        ensures
            r == (self.minx, self.miny, self.maxx, self.maxy),
    {
        (self.minx, self.miny, self.maxx, self.maxy)
    }

    /// The lower-left and upper-right corners, in that order.
    #[inline]
    pub fn llur(self) -> (r: [[i32; 2]; 2])
        ensures
            r == [[self.minx, self.miny], [self.maxx, self.maxy]],
    {
        [self.ll(), self.ur()]
    }

    /// The lower-left corner `[minx, miny]`.
    #[inline]
    pub fn ll(self) -> (r: [i32; 2])
        ensures
            r == [self.minx, self.miny],
    {
        [self.minx, self.miny]
    }

    /// The upper-right corner `[maxx, maxy]`.
    #[inline]
    pub fn ur(self) -> (r: [i32; 2])
        ensures
            r == [self.maxx, self.maxy],
    {
        [self.maxx, self.maxy]
    }

    /// The midpoint of the two corners, each coordinate rounded down to the grid.
    #[inline]
    pub fn centre(&self) -> (r: [i32; 2])
        ensures
            r[0] == (self.minx + self.maxx) / 2,
            r[1] == (self.miny + self.maxy) / 2,
    {
        let sx: i64 = self.minx as i64 + self.maxx as i64;
        let sy: i64 = self.miny as i64 + self.maxy as i64;
        let cx: i64 = if sx >= 0 { sx / 2 } else { (sx - 1) / 2 };
        let cy: i64 = if sy >= 0 { sy / 2 } else { (sy - 1) / 2 };
        [cx as i32, cy as i32]
    }
}

} // verus!

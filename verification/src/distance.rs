//! Distances between rectangles: the gap along each axis, the squared Euclidean
//! distance, and the Euclidean distance rounded down to the grid.

use vstd::prelude::*;
use crate::mbr::MBR;

verus! {

/// `r` is the integer square root of `n`: the largest integer whose square is
/// not above `n`.
pub open spec fn is_floor_sqrt(n: int, r: int) -> bool {
    r >= 0 && r * r <= n < (r + 1) * (r + 1)
}

/// Squares grow with their non-negative base.
pub proof fn lemma_square_monotone(a: int, b: int)
    requires
        0 <= a <= b,
    ensures
        a * a <= b * b,
{
    assert(a * a <= b * b) by (nonlinear_arith)
        requires
            0 <= a <= b,
    ;
}

/// A number has one integer square root.
pub proof fn lemma_floor_sqrt_unique(n: int, r: int, s: int)
    requires
        is_floor_sqrt(n, r),
        is_floor_sqrt(n, s),
    ensures
        r == s,
{
    if r < s {
        lemma_square_monotone(r + 1, s);
    } else if s < r {
        lemma_square_monotone(s + 1, r);
    }
}

/// Computes the integer square root of `n` by bisection.
pub fn integer_sqrt(n: u128) -> (r: u64)
    ensures
        is_floor_sqrt(n as int, r as int),
{
    let mut low: u128 = 0;
    let mut high: u128 = 0x1_0000_0000_0000_0000;
    assert(n < high * high) by (nonlinear_arith)
        requires
            high == 0x1_0000_0000_0000_0000,
            n <= u128::MAX,
    ;
    while high - low > 1
        invariant
            low < high <= 0x1_0000_0000_0000_0000,
            low * low <= n,
            n < high * high,
        decreases high - low,
    {
        let mid: u128 = low + (high - low) / 2;
        assert(mid * mid <= 0xffff_ffff_ffff_ffff * 0xffff_ffff_ffff_ffff) by (nonlinear_arith)
            requires
                0 <= mid <= 0xffff_ffff_ffff_ffff,
        ;
        if mid * mid <= n {
            low = mid;
        } else {
            high = mid;
        }
    }
    low as u64
}

impl MBR {
    /// The gap between the two along x: how far the nearer vertical edges are
    /// apart if one rectangle lies wholly to the left of the other, else zero.
    pub open spec fn spec_gap_x(self, other: MBR) -> int {
        if self.maxx < other.minx {
            other.minx - self.maxx
        } else if self.minx > other.maxx {
            self.minx - other.maxx
        } else {
            0
        }
    }

    /// The gap between the two along y: how far the nearer horizontal edges are
    /// apart if one rectangle lies wholly below the other, else zero.
    pub open spec fn spec_gap_y(self, other: MBR) -> int {
        if self.maxy < other.miny {
            other.miny - self.maxy
        } else if self.miny > other.maxy {
            self.miny - other.maxy
        } else {
            0
        }
    }

    /// The square of the Euclidean distance between the two: zero if they
    /// intersect, else the sum of the squares of the two gaps.
    pub open spec fn spec_distance_square(self, other: MBR) -> int {
        if self.spec_intersects(other) {
            0
        } else {
            self.spec_gap_x(other) * self.spec_gap_x(other) + self.spec_gap_y(other)
                * self.spec_gap_y(other)
        }
    }

    /// The squared distance fits twice the square of the widest possible gap.
    pub proof fn lemma_distance_square_bounds(self, other: MBR)
        ensures
            0 <= self.spec_gap_x(other) <= 0xffff_ffff,
            0 <= self.spec_gap_y(other) <= 0xffff_ffff,
            0 <= self.spec_distance_square(other) <= 2 * (0xffff_ffff * 0xffff_ffff),
    {
        let gx = self.spec_gap_x(other);
        let gy = self.spec_gap_y(other);
        assert(0 <= gx * gx <= 0xffff_ffff * 0xffff_ffff) by (nonlinear_arith)
            requires
                0 <= gx <= 0xffff_ffff,
        ;
        assert(0 <= gy * gy <= 0xffff_ffff * 0xffff_ffff) by (nonlinear_arith)
            requires
                0 <= gy <= 0xffff_ffff,
        ;
    }

    /// Computes the gap between the two along x and along y.
    pub fn distance_dxdy(&self, other: &Self) -> (r: (i64, i64))
        ensures
            r.0 == self.spec_gap_x(*other),
            r.1 == self.spec_gap_y(*other),
    {
        // find closest edge by x
        let dx: i64 = if self.maxx < other.minx {
            other.minx as i64 - self.maxx as i64
        } else if self.minx > other.maxx {
            self.minx as i64 - other.maxx as i64
        } else {
            0
        };

        // find closest edge by y
        let dy: i64 = if self.maxy < other.miny {
            other.miny as i64 - self.maxy as i64
        } else if self.miny > other.maxy {
            self.miny as i64 - other.maxy as i64
        } else {
            0
        };

        (dx, dy)
    }

    /// Computes the Euclidean distance between the two, rounded down to a whole
    /// number of grid units: zero if they intersect, else the integer square root
    /// of the sum of the squared gaps.
    pub fn distance(&self, other: &Self) -> (r: i64)
        ensures
            is_floor_sqrt(self.spec_distance_square(*other), r as int),
            self.spec_intersects(*other) ==> r == 0,
    {
        if self.intersects(other) {
            return 0;
        }
        let d2: i128 = self.distance_square(other);
        proof {
            self.lemma_distance_square_bounds(*other);
        }
        let root: u64 = integer_sqrt(d2 as u128);
        proof {
            if root >= 0x2_0000_0000 {
                lemma_square_monotone(0x2_0000_0000, root as int);
            }
        }
        root as i64
    }

    /// Computes the square of the Euclidean distance between the two: zero if
    /// they intersect, else the sum of the squared gaps.
    pub fn distance_square(&self, other: &Self) -> (r: i128)
        ensures
            r == self.spec_distance_square(*other),
    {
        if self.intersects(other) {
            return 0;
        }
        let (dx, dy) = self.distance_dxdy(other);
        proof {
            self.lemma_distance_square_bounds(*other);
        }
        let dx: i128 = dx as i128;
        let dy: i128 = dy as i128;
        (dx * dx) + (dy * dy)
    }

    /// Computes the square of the Euclidean distance between the rectangle and
    /// the point `pt`.
    pub fn distance_2(&self, pt: [i32; 2]) -> (r: i128)
        ensures
            r == self.spec_distance_square(MBR::at_point(pt[0], pt[1])),
    {
        self.distance_square(&MBR::new_from_pt(pt))
    }
}

} // verus!

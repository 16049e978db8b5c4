//! A reproducible sort order for rectangles: by the lower-left corner, first
//! along x and then along y. Coordinates are compared up to the tolerance of
//! [`feq`]. The upper-right corner plays no part, so rectangles that share a
//! lower-left corner rank as equal.

use vstd::prelude::*;
use core::cmp::Ordering;
use vstd::std_specs::cmp::PartialOrdSpecImpl;
use crate::mbr::MBR;
use crate::predicates::feq;

verus! {

impl MBR {
    /// How the rectangle ranks against `other`: by `minx`, and by `miny` where
    /// the two agree on `minx`.
    pub open spec fn rank_against(self, other: MBR) -> Ordering {
        if self.minx != other.minx {
            if self.minx < other.minx {
                Ordering::Less
            } else {
                Ordering::Greater
            }
        } else if self.miny != other.miny {
            if self.miny < other.miny {
                Ordering::Less
            } else {
                Ordering::Greater
            }
        } else {
            Ordering::Equal
        }
    }

    /// Ranks the rectangle against `other` by their lower-left corners.
    pub fn cmp(&self, other: &Self) -> (r: Ordering)
        ensures
            r == self.rank_against(*other),
    {
        if !feq(self.minx, other.minx) {
            if self.minx < other.minx {
                Ordering::Less
            } else {
                Ordering::Greater
            }
        } else if !feq(self.miny, other.miny) {
            if self.miny < other.miny {
                Ordering::Less
            } else {
                Ordering::Greater
            }
        } else {
            Ordering::Equal
        }
    }
}

impl PartialOrd for MBR {
    /// Ranks the rectangle against `other`, as [`MBR::cmp`] does; every two
    /// rectangles have a rank.
    fn partial_cmp(&self, other: &Self) -> (r: Option<Ordering>)
        ensures
            r == Some(self.rank_against(*other)),
    {
        Some(self.cmp(other))
    }
}

impl PartialOrdSpecImpl for MBR {
    open spec fn obeys_partial_cmp_spec() -> bool {
        true
    }

    open spec fn partial_cmp_spec(&self, other: &Self) -> Option<Ordering> {
        Some(self.rank_against(*other))
    }
}

/// Every rectangle ranks equal to itself, and so do two rectangles exactly if
/// they share their lower-left corner.
pub proof fn lemma_rank_equal(a: MBR, b: MBR)
    ensures
        a.rank_against(a) == Ordering::Equal,
        a.rank_against(b) == Ordering::Equal <==> a.minx == b.minx && a.miny == b.miny,
{
}

/// Asking the other way round turns the rank round.
pub proof fn lemma_rank_reverses(a: MBR, b: MBR)
    ensures
        a.rank_against(b) == Ordering::Less <==> b.rank_against(a) == Ordering::Greater,
        a.rank_against(b) == Ordering::Equal <==> b.rank_against(a) == Ordering::Equal,
{
}

/// Ranks carry over: what is not above `b` is not above anything that `b` is
/// not above, and is below it where either step goes strictly down.
pub proof fn lemma_rank_transitive(a: MBR, b: MBR, c: MBR)
    requires
        a.rank_against(b) != Ordering::Greater,
        b.rank_against(c) != Ordering::Greater,
    ensures
        a.rank_against(c) != Ordering::Greater,
        a.rank_against(b) == Ordering::Less || b.rank_against(c) == Ordering::Less
            ==> a.rank_against(c) == Ordering::Less,
{
}

} // verus!

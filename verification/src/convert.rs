//! Conversions into rectangles from flat tuples and arrays of coordinates. Four
//! coordinates are two corners in any order; two coordinates are a single point.

use vstd::prelude::*;
use vstd::std_specs::convert::FromSpecImpl;
use crate::mbr::MBR;

verus! {

impl From<(i32, i32, i32, i32)> for MBR {
    /// The rectangle spanned by the corners `(tup.0, tup.1)` and `(tup.2, tup.3)`.
    fn from(tup: (i32, i32, i32, i32)) -> (r: MBR)
        ensures
            r == MBR::spanning(tup.0, tup.1, tup.2, tup.3),
            r.is_normalized(),
    {
        MBR::new(tup.0, tup.1, tup.2, tup.3)
    }
}

impl FromSpecImpl<(i32, i32, i32, i32)> for MBR {
    open spec fn obeys_from_spec() -> bool {
        true
    }

    open spec fn from_spec(tup: (i32, i32, i32, i32)) -> MBR {
        MBR::spanning(tup.0, tup.1, tup.2, tup.3)
    }
}

impl From<(i32, i32)> for MBR {
    /// The rectangle that holds the single point `(tup.0, tup.1)`.
    fn from(tup: (i32, i32)) -> (r: MBR)
        ensures
            r == MBR::at_point(tup.0, tup.1),
            r.is_normalized(),
    {
        let x: i32 = tup.0;
        let y: i32 = tup.1;
        MBR { minx: x, miny: y, maxx: x, maxy: y }
    }
}

impl FromSpecImpl<(i32, i32)> for MBR {
    open spec fn obeys_from_spec() -> bool {
        true
    }

    open spec fn from_spec(tup: (i32, i32)) -> MBR {
        MBR::at_point(tup.0, tup.1)
    }
}

impl From<[i32; 4]> for MBR {
    /// The rectangle spanned by the corners `(array[0], array[1])` and
    /// `(array[2], array[3])`.
    fn from(array: [i32; 4]) -> (r: MBR)
        ensures
            r == MBR::spanning(array[0], array[1], array[2], array[3]),
            r.is_normalized(),
    {
        MBR::new(array[0], array[1], array[2], array[3])
    }
}

impl FromSpecImpl<[i32; 4]> for MBR {
    open spec fn obeys_from_spec() -> bool {
        true
    }

    open spec fn from_spec(array: [i32; 4]) -> MBR {
        MBR::spanning(array[0], array[1], array[2], array[3])
    }
}

impl From<[i32; 2]> for MBR {
    /// The rectangle that holds the single point `(array[0], array[1])`.
    fn from(array: [i32; 2]) -> (r: MBR)
        ensures
            r == MBR::at_point(array[0], array[1]),
            r.is_normalized(),
    {
        let x: i32 = array[0];
        let y: i32 = array[1];
        MBR { minx: x, miny: y, maxx: x, maxy: y }
    }
}

impl FromSpecImpl<[i32; 2]> for MBR {
    open spec fn obeys_from_spec() -> bool {
        true
    }

    open spec fn from_spec(array: [i32; 2]) -> MBR {
        MBR::at_point(array[0], array[1])
    }
}

} // verus!

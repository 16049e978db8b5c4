//! A list of rectangles, and the trait of things that have a bounding rectangle.

use vstd::prelude::*;
use vstd::std_specs::convert::FromSpecImpl;
use crate::mbr::MBR;

verus! {

/// A list of rectangles.
pub struct Boxes {
    pub boxes: Vec<MBR>,
}

impl View for Boxes {
    type V = Seq<MBR>;

    open spec fn view(&self) -> Seq<MBR> {
        self.boxes@
    }
}

/// The rectangles spanned by each entry of `items`, in the same order.
pub open spec fn spanning_each(items: Seq<[i32; 4]>) -> Seq<MBR> {
    Seq::new(items.len(), |i: int| MBR::spanning(items[i][0], items[i][1], items[i][2], items[i][3]))
}

impl Boxes {
    /// The number of rectangles in the list.
    pub fn len(&self) -> (r: usize)
        ensures
            r == self@.len(),
    {
        self.boxes.len()
    }

    /// The rectangle at position `i`, if the list is that long.
    pub fn get(&self, i: usize) -> (r: Option<&MBR>)
        ensures
            i < self@.len() ==> r == Some(&self@[i as int]),
            i >= self@.len() ==> r is None,
    {
        if i < self.boxes.len() {
            Some(&self.boxes[i])
        } else {
            None
        }
    }

    /// The rectangle at position `i`.
    pub fn index(&self, i: usize) -> (r: &MBR)
        requires
            i < self@.len(),
        ensures
            *r == self@[i as int],
    {
        &self.boxes[i]
    }
}

impl From<Vec<[i32; 4]>> for Boxes {
    /// Builds one rectangle from each entry, its two corners given in any order.
    fn from(items: Vec<[i32; 4]>) -> (r: Boxes)
        ensures
            r@ == spanning_each(items@),
    {
        let mut boxes: Vec<MBR> = Vec::new();
        let mut i: usize = 0;
        while i < items.len()
            invariant
                i <= items@.len(),
                boxes@ == spanning_each(items@.take(i as int)),
            decreases items@.len() - i,
        {
            let array: [i32; 4] = items[i];
            boxes.push(array.into());
            i += 1;
            assert(boxes@ =~= spanning_each(items@.take(i as int)));
        }
        assert(items@.take(i as int) =~= items@);
        Boxes { boxes }
    }
}

/// A list is told from another by what it holds, which is what the conversion
/// above states; no spec function names the list itself.
impl FromSpecImpl<Vec<[i32; 4]>> for Boxes {
    open spec fn obeys_from_spec() -> bool {
        false
    }

    open spec fn from_spec(items: Vec<[i32; 4]>) -> Boxes {
        arbitrary()
    }
}

/// Things that have a bounding rectangle.
pub trait BBox {
    /// The bounding rectangle of the value.
    spec fn spec_bbox(&self) -> MBR;

    /// Hands out the bounding rectangle of the value.
    fn bbox(&self) -> (r: &MBR)
        ensures
            *r == self.spec_bbox(),
    ;
}

impl BBox for MBR {
    open spec fn spec_bbox(&self) -> MBR {
        *self
    }

    fn bbox(&self) -> (r: &MBR) {
        self
    }
}

} // verus!

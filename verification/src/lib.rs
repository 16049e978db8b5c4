//! Minimum bounding rectangles on the integer grid.
//!
//! An [`MBR`] is a closed, axis-aligned rectangle given by its lower-left and
//! upper-right corners. Coordinates are `i32` grid units, so every operation is
//! exact: extents are returned as `i64` and areas and squared distances as
//! `i128`, which hold every value, and the operations that move a corner state
//! the range in which the result must lie.

pub mod mbr;
pub mod predicates;
pub mod algebra;
pub mod distance;
pub mod order;
pub mod text;
pub mod convert;
pub mod boxes;
pub mod laws;

pub use boxes::{BBox, Boxes};
pub use mbr::{OutOfRange, MBR};

//! A two-dimensional vector of integers.

use vstd::prelude::*;

verus! {

/// A two-dimensional vector of `i32` coordinates.
#[derive(Clone, Copy, PartialEq, Eq, Debug, Hash, Structural)]
pub struct IVec2 {
    pub x: i32,
    pub y: i32,
}

impl IVec2 {
    /// The vector `(x, y)`.
    pub fn new(x: i32, y: i32) -> (r: IVec2)
        ensures
            r == (IVec2 { x, y }),
    {
        IVec2 { x, y }
    }
}

} // verus!

//! What the adapter makes of the native library's answers.
//!
//! A native call that finds nothing is no failure: "no such window" is the
//! answer `false`. What the library hands back is passed on as it is; only
//! a text buffer is decoded, by [`crate::wide::read_text`].

use vstd::prelude::*;

verus! {

/// A screen position as the native library holds it: the point structure
/// that it fills when asked where the pointer is.
#[derive(Debug, Clone, Copy, PartialEq, Eq)]
pub struct Point {
    pub x: i32,
    pub y: i32,
}

/// Whether a window exists, from the status that the existence check
/// returned: the native library says 1 for "yes", and every other status
/// means that there is no such window.
pub open spec fn found(status: i32) -> bool {
    status == 1
}

/// Reads the status of an existence check.
pub fn window_found(status: i32) -> (exists: bool)
    ensures
        exists == found(status),
{
    status == 1
}

/// The coordinate pair of a point.
pub open spec fn pair(point: Point) -> (i32, i32) {
    (point.x, point.y)
}

/// Reads the point that the native library filled: its coordinates, as
/// they are.
pub fn position(point: Point) -> (at: (i32, i32))
    ensures
        at == pair(point),
{
    (point.x, point.y)
}

} // verus!

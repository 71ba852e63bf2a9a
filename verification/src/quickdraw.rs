//! Screen geometry.

use crate::bytes::{as_signed16, be_u16_at, read_be_i16};
use vstd::prelude::*;

verus! {

/// A point on the screen, in pixels.
#[derive(Clone, Copy, Debug, PartialEq, Eq, Structural)]
pub struct Point {
    pub x: i16,
    pub y: i16,
}

impl Default for Point {
    /// The origin.
    fn default() -> (r: Self)
        ensures
            r == (Point { x: 0, y: 0 }),
    {
        Point { x: 0, y: 0 }
    }
}

/// The point stored big-endian at `pos`: the vertical coordinate first, then
/// the horizontal one, as QuickDraw stores points.
pub open spec fn spec_point_at(buf: Seq<u8>, pos: int) -> Point {
    Point {
        y: as_signed16(be_u16_at(buf, pos)) as i16,
        x: as_signed16(be_u16_at(buf, pos + 2)) as i16,
    }
}

/// Reads the big-endian point at `pos`.
pub fn read_point(buf: &[u8], pos: usize) -> (r: Point)
    requires
        pos + 4 <= buf.len(),
    ensures
        r == spec_point_at(buf@, pos as int),
{
    let y = read_be_i16(buf, pos);
    let x = read_be_i16(buf, pos + 2);
    Point { x, y }
}

} // verus!

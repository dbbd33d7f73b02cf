//! Screen positions.
//!
//! A coordinate is carried as the 64-bit pattern of the real number it encodes.
//! Nothing here does arithmetic on coordinates: positions are stored, copied and
//! handed back bit for bit.

use vstd::prelude::*;

verus! {

/// A position on the screen: the bit patterns of its two coordinates.
#[derive(Copy, Clone, Debug, PartialEq, Eq, Structural)]
pub struct Point {
    /// Bit pattern of the horizontal coordinate.
    pub x: u64,
    /// Bit pattern of the vertical coordinate.
    pub y: u64,
}

/// Describes the position of the mouse when the button was pressed. Will be
/// `None` if the mouse button is currently in the up position.
pub type ButtonDownPosition = Option<Point>;

impl Point {
    /// The point whose coordinates have the given bit patterns.
    pub fn from_bits(x: u64, y: u64) -> (point: Point)
        ensures
            point == (Point { x, y }),
    {
        Point { x, y }
    }

    /// The origin: both coordinates are positive zero, whose bit pattern is 0.
    pub open spec fn spec_origin() -> Point {
        Point { x: 0, y: 0 }
    }

    /// The origin: both coordinates are positive zero, whose bit pattern is 0.
    #[verifier::when_used_as_spec(spec_origin)]
    pub fn origin() -> (point: Point)
        ensures
            point == Point::spec_origin(),
    {
        Point { x: 0, y: 0 }
    }
}

} // verus!

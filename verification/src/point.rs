//! The master's elliptic-curve point, reduced to what the protocol reads:
//! the big-endian byte strings of its affine coordinates.
//!
//! A SEC1-encoded point carries an x-coordinate whenever it is not the
//! identity, and a y-coordinate only when the encoding is uncompressed; a
//! coordinate that is absent here is `None`.  The session constructor
//! rejects a point that lacks either 32-byte coordinate.

use vstd::prelude::*;

verus! {

/// The affine coordinates of a P-256 point, as far as its encoding shows them.
pub struct Point {
    /// Big-endian bytes of the x-coordinate, if present.
    pub x: Option<Vec<u8>>,
    /// Big-endian bytes of the y-coordinate, if present in the encoding.
    pub y: Option<Vec<u8>>,
}

impl Point {
    /// Both coordinates are present and of the field-element width.
    pub open spec fn is_valid(self) -> bool {
        &&& self.x matches Some(x) && x@.len() == 32
        &&& self.y matches Some(y) && y@.len() == 32
    }

    /// The integer value of the x-coordinate.
    pub open spec fn x_value(self) -> int {
        crate::arith::be_bytes_value(self.x->0@)
    }

    /// The integer value of the y-coordinate.
    pub open spec fn y_value(self) -> int {
        crate::arith::be_bytes_value(self.y->0@)
    }
}

} // verus!

//! Integer 3-vectors used for spatial coordinates.

use vstd::prelude::*;

verus! {

/// A point or offset in space, in fixed-point coordinates.
///
/// The unit is chosen by the caller when an index is constructed; the
/// library only ever compares, adds and halves coordinates, so any uniform
/// scale works.
#[derive(Clone, Copy, PartialEq, Eq, Structural, Debug)]
pub struct Vec3 {
    pub x: i64,
    pub y: i64,
    pub z: i64,
}

impl Vec3 {
    pub fn new(x: i64, y: i64, z: i64) -> (r: Vec3)
        ensures
            r == (Vec3 { x, y, z }),
    {
        Vec3 { x, y, z }
    }
}

} // verus!

//! The Earth-centered Cartesian frame.

use vstd::prelude::*;

verus! {

/// A location as offsets from Earth's center, in the linear unit of the
/// ellipsoid axes.
#[derive(Clone, Copy)]
pub struct Coordinate<T> {
    pub x: T,
    pub y: T,
    pub z: T,
}

} // verus!

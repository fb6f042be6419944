use vstd::prelude::*;

verus! {

// Every coordinate is a single-precision float held as its IEEE-754 bit
// pattern. The session never computes with coordinates: it stores what the host
// reported and hands it back unchanged, so the bit pattern is the value.

/// A point or direction in session space.
#[derive(Clone, Copy, Debug, PartialEq, Eq, Structural)]
pub struct Vector3 {
    pub x: u32,
    pub y: u32,
    pub z: u32,
}

/// The width and height of a detected plane.
#[derive(Clone, Copy, Debug, PartialEq, Eq, Structural)]
pub struct Extent2 {
    pub width: u32,
    pub height: u32,
}

/// A rotation, stored as reported: it is neither normalized nor validated.
#[derive(Clone, Copy, Debug, PartialEq, Eq, Structural)]
pub struct Quaternion {
    pub x: u32,
    pub y: u32,
    pub z: u32,
    pub w: u32,
}

/// The origin; every component is positive zero, whose bit pattern is 0.
pub fn origin() -> (r: Vector3)
    ensures
        r == (Vector3 { x: 0, y: 0, z: 0 }),
{
    Vector3 { x: 0, y: 0, z: 0 }
}

} // verus!

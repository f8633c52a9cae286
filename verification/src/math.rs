//! Small integer vector types used for chunk-local, chunk-space and
//! face-local coordinates.

use vstd::prelude::*;

verus! {

/// A 2D integer vector, used for face-local coordinates.
#[derive(Clone, Copy, PartialEq, Eq, Structural, Debug, Hash)]
pub struct IVec2 {
    pub x: i32,
    pub y: i32,
}

/// A 3D integer vector, used for voxel and chunk coordinates.
#[derive(Clone, Copy, PartialEq, Eq, Structural, Debug, Hash)]
pub struct IVec3 {
    pub x: i32,
    pub y: i32,
    pub z: i32,
}

pub fn ivec2(x: i32, y: i32) -> (r: IVec2)
    ensures
        r == (IVec2 { x, y }),
{
    IVec2 { x, y }
}

pub fn ivec3(x: i32, y: i32, z: i32) -> (r: IVec3)
    ensures
        r == (IVec3 { x, y, z }),
{
    IVec3 { x, y, z }
}

} // verus!

//! Cube faces, voxel identifiers and transparency metadata.

use vstd::prelude::*;

use crate::error::FaceParseError;
use crate::math::IVec3;

verus! {

/// One of the six faces of a cube.
///
/// The axis convention: `Top`/`Bottom` point along `+Y`/`-Y`,
/// `North`/`South` along `+X`/`-X`, and `East`/`West` along `+Z`/`-Z`.
#[derive(Clone, Copy, PartialEq, Eq, Structural, Debug, Hash)]
pub enum Face {
    Top,
    Bottom,
    North,
    East,
    South,
    West,
}

impl Face {
    /// `+1` for faces pointing in the positive direction of their axis,
    /// `-1` for the others.
    pub open spec fn spec_axis_direction(self) -> i32 {
        match self {
            Face::Top | Face::North | Face::East => 1,
            Face::Bottom | Face::South | Face::West => -1i32,
        }
    }

    #[verifier::when_used_as_spec(spec_axis_direction)]
    pub fn axis_direction(self) -> (r: i32)
        ensures
            r == self.spec_axis_direction(),
    {
        match self {
            Face::Top | Face::North | Face::East => 1,
            Face::Bottom | Face::South | Face::West => -1,
        }
    }

    /// The outward unit normal of the face.
    pub open spec fn spec_normal(self) -> IVec3 {
        match self {
            Face::Top => IVec3 { x: 0, y: 1, z: 0 },
            Face::Bottom => IVec3 { x: 0, y: -1i32, z: 0 },
            Face::North => IVec3 { x: 1, y: 0, z: 0 },
            Face::South => IVec3 { x: -1i32, y: 0, z: 0 },
            Face::East => IVec3 { x: 0, y: 0, z: 1 },
            Face::West => IVec3 { x: 0, y: 0, z: -1i32 },
        }
    }

    #[verifier::when_used_as_spec(spec_normal)]
    pub fn normal(self) -> (r: IVec3)
        ensures
            r == self.spec_normal(),
    {
        match self {
            Face::Top => IVec3 { x: 0, y: 1, z: 0 },
            Face::Bottom => IVec3 { x: 0, y: -1, z: 0 },
            Face::North => IVec3 { x: 1, y: 0, z: 0 },
            Face::South => IVec3 { x: -1, y: 0, z: 0 },
            Face::East => IVec3 { x: 0, y: 0, z: 1 },
            Face::West => IVec3 { x: 0, y: 0, z: -1 },
        }
    }

    /// Which face, if any, a character sequence names.
    pub open spec fn spec_parse(s: Seq<char>) -> Option<Face> {
        if s == "top"@ {
            Some(Face::Top)
        } else if s == "bottom"@ {
            Some(Face::Bottom)
        } else if s == "north"@ {
            Some(Face::North)
        } else if s == "east"@ {
            Some(Face::East)
        } else if s == "south"@ {
            Some(Face::South)
        } else if s == "west"@ {
            Some(Face::West)
        } else {
            None
        }
    }

    /// Parses the lower-case name of a face, as used by model descriptor
    /// files; on failure the error carries the rejected string.
    pub fn parse(s: &str) -> (r: Result<Face, FaceParseError>)
        ensures
            (Face::spec_parse(s@) matches Some(f) ==> r == Ok::<Face, FaceParseError>(f)),
            Face::spec_parse(s@) is None <==> r is Err,
            (r matches Err(e) ==> e@ == s@),
    {
        let t = s.to_owned();
        if t == "top".to_owned() {
            Ok(Face::Top)
        } else if t == "bottom".to_owned() {
            Ok(Face::Bottom)
        } else if t == "north".to_owned() {
            Ok(Face::North)
        } else if t == "east".to_owned() {
            Ok(Face::East)
        } else if t == "south".to_owned() {
            Ok(Face::South)
        } else if t == "west".to_owned() {
            Ok(Face::West)
        } else {
            Err(FaceParseError::new(t))
        }
    }
}

/// Whether a voxel lets light (and face visibility checks) through.
#[derive(Clone, Copy, PartialEq, Eq, Structural, Debug, Hash)]
pub enum Transparency {
    Opaque,
    Transparent,
}

impl Transparency {
    pub open spec fn spec_is_transparent(self) -> bool {
        self is Transparent
    }

    #[verifier::when_used_as_spec(spec_is_transparent)]
    pub fn is_transparent(self) -> (r: bool)
        ensures
            r == self.spec_is_transparent(),
    {
        match self {
            Transparency::Transparent => true,
            Transparency::Opaque => false,
        }
    }
}

/// A small opaque identifier referencing a voxel registry entry.
#[derive(Clone, Copy, PartialEq, Eq, Structural, Debug, Hash)]
pub struct VoxelId(pub u64);

impl VoxelId {
    pub fn new(id: u64) -> (r: VoxelId)
        ensures
            r == VoxelId(id),
    {
        VoxelId(id)
    }

    pub open spec fn spec_inner(self) -> u64 {
        self.0
    }

    #[verifier::when_used_as_spec(spec_inner)]
    pub fn inner(self) -> (r: u64)
        ensures
            r == self.0,
    {
        self.0
    }
}

} // verus!

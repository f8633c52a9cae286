//! Error types of the chunk access layer, the neighbor sampler, the
//! meshers and the descriptor parsers.

use vstd::prelude::*;

verus! {

/// A position fell outside the valid local (or halo) range.
#[derive(Clone, Copy, PartialEq, Eq, Structural, Debug)]
pub struct OutOfBounds;

/// Failure when going through a `ChunkRef` to the chunk it points at.
#[derive(Clone, Copy, PartialEq, Eq, Structural, Debug)]
pub enum ChunkRefAccessError {
    /// The referenced chunk no longer exists.
    Unloaded,
}

/// Failure of a read or write on a chunk's voxel containers.
#[derive(Clone, Copy, PartialEq, Eq, Structural, Debug)]
pub enum ChunkVoxelAccessError {
    /// The position was outside `[0, SIZE)^3`.
    OutOfBounds,
}

/// Failure of a boundary query on a `Neighbors` bundle, parameterized
/// over the error type of the underlying read access.
#[derive(Clone, Copy, PartialEq, Eq, Debug)]
pub enum NeighborsAccessError<E> {
    /// The face-local position was outside the halo range, or the query
    /// did not land in one of the 26 neighbor chunks.
    OutOfBounds,
    /// The neighbor's own read access failed.
    AccessError(E),
}

/// Failure of a mesher run, parameterized over the error type of the
/// chunk read access and the error type of the neighbor accesses.
#[derive(Clone, Copy, PartialEq, Eq, Debug)]
pub enum MesherError<AE, NE> {
    /// Reading the chunk being meshed failed.
    AccessError(AE),
    /// Sampling a neighbor chunk failed.
    NeighborAccessError(NeighborsAccessError<NE>),
}

/// A string could not be parsed into a [`crate::tile::Face`].
#[derive(Clone, Debug)]
pub struct FaceParseError(pub String);

impl FaceParseError {
    pub fn new(s: String) -> (r: FaceParseError)
        ensures
            r@ == s@,
    {
        FaceParseError(s)
    }
}

impl View for FaceParseError {
    type V = Seq<char>;

    open spec fn view(&self) -> Seq<char> {
        self.0@
    }
}

/// A string could not be parsed into a
/// [`crate::voxel::FaceTextureRotation`].
#[derive(Clone, Debug)]
pub struct FaceTextureRotationParseError(pub String);

impl FaceTextureRotationParseError {
    pub fn new(s: String) -> (r: FaceTextureRotationParseError)
        ensures
            r@ == s@,
    {
        FaceTextureRotationParseError(s)
    }
}

impl View for FaceTextureRotationParseError {
    type V = Seq<char>;

    open spec fn view(&self) -> Seq<char> {
        self.0@
    }
}

/// A string could not be parsed into a [`crate::voxel::BlockModelFace`].
#[derive(Clone, Debug)]
pub struct BlockModelFaceParseError(pub String);

impl BlockModelFaceParseError {
    pub fn new(s: String) -> (r: BlockModelFaceParseError)
        ensures
            r@ == s@,
    {
        BlockModelFaceParseError(s)
    }
}

impl View for BlockModelFaceParseError {
    type V = Seq<char>;

    open spec fn view(&self) -> Seq<char> {
        self.0@
    }
}

} // verus!

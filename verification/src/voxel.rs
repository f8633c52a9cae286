//! Per-voxel visual data: face textures, block models and the registry
//! of voxel properties that the meshing algorithm consults.

use vstd::prelude::*;

use crate::error::{BlockModelFaceParseError, FaceTextureRotationParseError};
use crate::tile::{Face, Transparency, VoxelId};

verus! {

/// Registry metadata for one voxel id.
#[derive(Clone, Copy, PartialEq, Eq, Structural, Debug)]
pub struct VoxelProperties {
    pub transparency: Transparency,
}

/// How a face texture is rotated when applied to a cube face.
#[derive(Clone, Copy, PartialEq, Eq, Structural, Debug, Hash)]
pub enum FaceTextureRotation {
    Up,
    Down,
    Left,
    Right,
}

impl FaceTextureRotation {
    /// The two-bit encoding of the rotation used in packed quad bitfields.
    pub open spec fn spec_bits(self) -> u32 {
        match self {
            FaceTextureRotation::Up => 0u32,
            FaceTextureRotation::Down => 1u32,
            FaceTextureRotation::Left => 2u32,
            FaceTextureRotation::Right => 3u32,
        }
    }

    #[verifier::when_used_as_spec(spec_bits)]
    pub fn bits(self) -> (r: u32)
        ensures
            r == self.spec_bits(),
    {
        match self {
            FaceTextureRotation::Up => 0,
            FaceTextureRotation::Down => 1,
            FaceTextureRotation::Left => 2,
            FaceTextureRotation::Right => 3,
        }
    }

    /// Which rotation, if any, a character sequence names.
    pub open spec fn spec_parse(s: Seq<char>) -> Option<FaceTextureRotation> {
        if s == "up"@ {
            Some(FaceTextureRotation::Up)
        } else if s == "down"@ {
            Some(FaceTextureRotation::Down)
        } else if s == "left"@ {
            Some(FaceTextureRotation::Left)
        } else if s == "right"@ {
            Some(FaceTextureRotation::Right)
        } else {
            None
        }
    }

    /// Parses the lower-case name of a rotation, as used by model
    /// descriptor files; on failure the error carries the rejected string.
    pub fn parse(s: &str) -> (r: Result<FaceTextureRotation, FaceTextureRotationParseError>)
        ensures
            (FaceTextureRotation::spec_parse(s@) matches Some(v) ==> r == Ok::<
                FaceTextureRotation,
                FaceTextureRotationParseError,
            >(v)),
            FaceTextureRotation::spec_parse(s@) is None <==> r is Err,
            (r matches Err(e) ==> e@ == s@),
    {
        let t = s.to_owned();
        if t == "up".to_owned() {
            Ok(FaceTextureRotation::Up)
        } else if t == "down".to_owned() {
            Ok(FaceTextureRotation::Down)
        } else if t == "left".to_owned() {
            Ok(FaceTextureRotation::Left)
        } else if t == "right".to_owned() {
            Ok(FaceTextureRotation::Right)
        } else {
            Err(FaceTextureRotationParseError::new(t))
        }
    }
}

/// A face of a block model as named in descriptor files, relative to the
/// model itself rather than to world axes.
#[derive(Clone, Copy, PartialEq, Eq, Structural, Debug, Hash)]
pub enum BlockModelFace {
    Up,
    Down,
    Left,
    Right,
    Front,
    Back,
}

impl BlockModelFace {
    /// Which model face, if any, a character sequence names.
    pub open spec fn spec_parse(s: Seq<char>) -> Option<BlockModelFace> {
        if s == "up"@ {
            Some(BlockModelFace::Up)
        } else if s == "down"@ {
            Some(BlockModelFace::Down)
        } else if s == "left"@ {
            Some(BlockModelFace::Left)
        } else if s == "right"@ {
            Some(BlockModelFace::Right)
        } else if s == "front"@ {
            Some(BlockModelFace::Front)
        } else if s == "back"@ {
            Some(BlockModelFace::Back)
        } else {
            None
        }
    }

    /// Parses the lower-case name of a model face; on failure the error
    /// carries the rejected string.
    pub fn parse(s: &str) -> (r: Result<BlockModelFace, BlockModelFaceParseError>)
        ensures
            (BlockModelFace::spec_parse(s@) matches Some(v) ==> r == Ok::<
                BlockModelFace,
                BlockModelFaceParseError,
            >(v)),
            BlockModelFace::spec_parse(s@) is None <==> r is Err,
            (r matches Err(e) ==> e@ == s@),
    {
        let t = s.to_owned();
        if t == "up".to_owned() {
            Ok(BlockModelFace::Up)
        } else if t == "down".to_owned() {
            Ok(BlockModelFace::Down)
        } else if t == "left".to_owned() {
            Ok(BlockModelFace::Left)
        } else if t == "right".to_owned() {
            Ok(BlockModelFace::Right)
        } else if t == "front".to_owned() {
            Ok(BlockModelFace::Front)
        } else if t == "back".to_owned() {
            Ok(BlockModelFace::Back)
        } else {
            Err(BlockModelFaceParseError::new(t))
        }
    }
}

/// A reference to one face's texture: the registry index of the texture
/// plus its orientation on the face.
#[derive(Clone, Copy, PartialEq, Eq, Structural, Debug, Hash)]
pub struct FaceTexture {
    pub texture_idx: u32,
    pub rotation: FaceTextureRotation,
    pub flip_x: bool,
    pub flip_y: bool,
}

impl FaceTexture {
    /// A texture applied with the default (upright, unflipped) orientation.
    pub fn new(texture_idx: u32) -> (r: FaceTexture)
        ensures
            r == (FaceTexture {
                texture_idx,
                rotation: FaceTextureRotation::Up,
                flip_x: false,
                flip_y: false,
            }),
    {
        FaceTexture { texture_idx, rotation: FaceTextureRotation::Up, flip_x: false, flip_y: false }
    }

    /// A texture applied with an explicit rotation and no flips.
    pub fn new_rotated(texture_idx: u32, rotation: FaceTextureRotation) -> (r: FaceTexture)
        ensures
            r == (FaceTexture { texture_idx, rotation, flip_x: false, flip_y: false }),
    {
        FaceTexture { texture_idx, rotation, flip_x: false, flip_y: false }
    }

    /// Field-wise equality, usable from executable code.
    pub fn same_as(&self, other: &FaceTexture) -> (r: bool)
        ensures
            r == (*self == *other),
    {
        self.texture_idx == other.texture_idx && self.rotation == other.rotation && self.flip_x
            == other.flip_x && self.flip_y == other.flip_y
    }
}

/// A mapping from each of the six cube faces to an optional value.
#[derive(Clone, Copy, PartialEq, Eq, Structural, Debug, Hash)]
pub struct FaceMap<T> {
    pub top: Option<T>,
    pub bottom: Option<T>,
    pub north: Option<T>,
    pub east: Option<T>,
    pub south: Option<T>,
    pub west: Option<T>,
}

impl<T> FaceMap<T> {
    /// The entry for a given face.
    pub open spec fn spec_get(self, face: Face) -> Option<T> {
        match face {
            Face::Top => self.top,
            Face::Bottom => self.bottom,
            Face::North => self.north,
            Face::East => self.east,
            Face::South => self.south,
            Face::West => self.west,
        }
    }

    /// A map with no entry on any face.
    pub fn empty() -> (r: FaceMap<T>)
        ensures
            forall|f: Face| r.spec_get(f) is None,
    {
        FaceMap { top: None, bottom: None, north: None, east: None, south: None, west: None }
    }

    pub fn get(&self, face: Face) -> (r: &Option<T>)
        ensures
            *r == self.spec_get(face),
    {
        match face {
            Face::Top => &self.top,
            Face::Bottom => &self.bottom,
            Face::North => &self.north,
            Face::East => &self.east,
            Face::South => &self.south,
            Face::West => &self.west,
        }
    }

    pub fn set(&mut self, face: Face, value: T)
        ensures
            final(self).spec_get(face) == Some(value),
            forall|f: Face| f != face ==> final(self).spec_get(f) == old(self).spec_get(f),
    {
        match face {
            Face::Top => self.top = Some(value),
            Face::Bottom => self.bottom = Some(value),
            Face::North => self.north = Some(value),
            Face::East => self.east = Some(value),
            Face::South => self.south = Some(value),
            Face::West => self.west = Some(value),
        }
    }
}

impl<T: Copy> FaceMap<T> {
    /// A map carrying the same value on every face.
    pub fn filled(value: T) -> (r: FaceMap<T>)
        ensures
            forall|f: Face| r.spec_get(f) == Some(value),
    {
        FaceMap {
            top: Some(value),
            bottom: Some(value),
            north: Some(value),
            east: Some(value),
            south: Some(value),
            west: Some(value),
        }
    }
}

/// The visual description of a plain cubic voxel: a texture per face.
#[derive(Clone, Copy, PartialEq, Eq, Structural, Debug, Hash)]
pub struct BlockModel {
    pub textures: FaceMap<FaceTexture>,
}

impl BlockModel {
    /// A block model showing the same texture on every face.
    pub fn filled(texture: FaceTexture) -> (r: BlockModel)
        ensures
            forall|f: Face| r.textures.spec_get(f) == Some(texture),
    {
        BlockModel { textures: FaceMap::filled(texture) }
    }

    /// The texture of one face; the face must carry one.
    pub fn texture(&self, face: Face) -> (r: FaceTexture)
        requires
            self.textures.spec_get(face) is Some,
        ensures
            Some(r) == self.textures.spec_get(face),
    {
        match self.textures.get(face) {
            Some(t) => *t,
            None => {
                proof {
                    assert(false);
                }
                FaceTexture::new(0)
            },
        }
    }
}

/// The visual model of a voxel. Only the plain cubic block model exists
/// today; the enum leaves room for future variants.
#[derive(Clone, Copy, PartialEq, Eq, Structural, Debug)]
#[non_exhaustive]
pub enum VoxelModel {
    Block(BlockModel),
}

impl VoxelModel {
    pub fn as_block_model(self) -> (r: Option<BlockModel>)
        ensures
            (match self {
                VoxelModel::Block(m) => r == Some(m),
            }),
    {
        match self {
            VoxelModel::Block(model) => Some(model),
        }
    }
}

/// The registry's transparency metadata, indexed by voxel id.
///
/// Voxel ids index into the table; an id at or past the end of the table
/// is unknown to the registry.
#[derive(Clone, Debug)]
pub struct VoxelRegistry {
    properties: Vec<VoxelProperties>,
}

impl View for VoxelRegistry {
    type V = Seq<VoxelProperties>;

    closed spec fn view(&self) -> Seq<VoxelProperties> {
        self.properties@
    }
}

impl VoxelRegistry {
    pub open spec fn spec_len(self) -> nat {
        self@.len()
    }

    /// The properties registered for an id, if the id is known.
    pub open spec fn spec_get(self, id: VoxelId) -> Option<VoxelProperties> {
        if id.0 < self@.len() {
            Some(self@[id.0 as int])
        } else {
            None
        }
    }

    /// Whether an id is treated as transparent: unknown ids are
    /// transparent by default.
    pub open spec fn spec_is_transparent(self, id: VoxelId) -> bool {
        match self.spec_get(id) {
            Some(props) => props.transparency is Transparent,
            None => true,
        }
    }

    pub fn new() -> (r: VoxelRegistry)
        ensures
            r.spec_len() == 0,
    {
        VoxelRegistry { properties: Vec::new() }
    }

    /// Registers a new voxel and returns its freshly assigned id.
    pub fn register(&mut self, props: VoxelProperties) -> (id: VoxelId)
        requires
            old(self).spec_len() < u64::MAX,
        ensures
            id == VoxelId(old(self).spec_len() as u64),
            final(self).spec_len() == old(self).spec_len() + 1,
            final(self).spec_get(id) == Some(props),
            forall|other: VoxelId|
                other != id ==> final(self).spec_get(other) == old(self).spec_get(other),
    {
        let id = VoxelId(self.properties.len() as u64);
        self.properties.push(props);
        id
    }

    pub fn get(&self, id: VoxelId) -> (r: Option<VoxelProperties>)
        ensures
            r == self.spec_get(id),
    {
        if id.0 < self.properties.len() as u64 {
            Some(self.properties[id.0 as usize])
        } else {
            None
        }
    }

    /// Whether the id is treated as transparent by face-visibility checks;
    /// ids the registry does not know are transparent by default.
    pub fn is_transparent(&self, id: VoxelId) -> (r: bool)
        ensures
            r == self.spec_is_transparent(id),
    {
        match self.get(id) {
            Some(props) => props.transparency.is_transparent(),
            None => true,
        }
    }
}

} // verus!

//! Chunks: fixed-size cubic partitions of the voxel world, with dense
//! per-cell storage for voxel ids and optional block models.

use vstd::prelude::*;

use crate::error::ChunkVoxelAccessError;
use crate::math::IVec3;
use crate::tile::VoxelId;
use crate::voxel::BlockModel;

verus! {

/// Edge length of a chunk, in voxels.
pub const CHUNK_SIZE: i32 = 16;

/// Number of cells in a chunk: `CHUNK_SIZE` cubed.
pub const CHUNK_VOLUME: usize = 4096;

/// The position of a chunk in chunk-space (not voxel space): neighboring
/// chunks differ by one. Its world-space origin is the position scaled by
/// `CHUNK_SIZE`.
#[derive(Clone, Copy, PartialEq, Eq, Structural, Debug, Hash)]
pub struct ChunkPos {
    pub x: i32,
    pub y: i32,
    pub z: i32,
}

impl ChunkPos {
    pub fn new(x: i32, y: i32, z: i32) -> (r: ChunkPos)
        ensures
            r == (ChunkPos { x, y, z }),
    {
        ChunkPos { x, y, z }
    }

    pub fn from_ivec3(v: IVec3) -> (r: ChunkPos)
        ensures
            r == (ChunkPos { x: v.x, y: v.y, z: v.z }),
    {
        ChunkPos { x: v.x, y: v.y, z: v.z }
    }

    /// The world-space (voxel-space) origin of this chunk: the chunk
    /// position scaled by the chunk edge length. The bound keeps the
    /// multiplication inside `i32`.
    pub fn worldspace_origin(&self) -> (r: IVec3)
        requires
            -0x0400_0000 <= self.x < 0x0400_0000,
            -0x0400_0000 <= self.y < 0x0400_0000,
            -0x0400_0000 <= self.z < 0x0400_0000,
        ensures
            r.x == self.x * CHUNK_SIZE,
            r.y == self.y * CHUNK_SIZE,
            r.z == self.z * CHUNK_SIZE,
    {
        IVec3 { x: self.x * CHUNK_SIZE, y: self.y * CHUNK_SIZE, z: self.z * CHUNK_SIZE }
    }
}

/// An axis-aligned box of voxel positions: `min` inclusive, `max`
/// exclusive on every axis.
#[derive(Clone, Copy, PartialEq, Eq, Structural, Debug)]
pub struct BoundingBox {
    pub min: IVec3,
    pub max: IVec3,
}

impl BoundingBox {
    pub open spec fn spec_contains(&self, pos: IVec3) -> bool {
        &&& self.min.x <= pos.x < self.max.x
        &&& self.min.y <= pos.y < self.max.y
        &&& self.min.z <= pos.z < self.max.z
    }

    #[verifier::when_used_as_spec(spec_contains)]
    pub fn contains(&self, pos: IVec3) -> (r: bool)
        ensures
            r == self.spec_contains(pos),
    {
        self.min.x <= pos.x && pos.x < self.max.x && self.min.y <= pos.y && pos.y < self.max.y
            && self.min.z <= pos.z && pos.z < self.max.z
    }
}

/// The fixed bounds of any chunk's local coordinate space: `[0, CHUNK_SIZE)^3`.
pub open spec fn spec_chunk_bounding_box() -> BoundingBox {
    BoundingBox {
        min: IVec3 { x: 0, y: 0, z: 0 },
        max: IVec3 { x: CHUNK_SIZE, y: CHUNK_SIZE, z: CHUNK_SIZE },
    }
}

#[verifier::when_used_as_spec(spec_chunk_bounding_box)]
pub fn chunk_bounding_box() -> (r: BoundingBox)
    ensures
        r == spec_chunk_bounding_box(),
{
    BoundingBox {
        min: IVec3 { x: 0, y: 0, z: 0 },
        max: IVec3 { x: CHUNK_SIZE, y: CHUNK_SIZE, z: CHUNK_SIZE },
    }
}

/// Whether a local position lies inside `[0, CHUNK_SIZE)^3`.
pub open spec fn pos_in_chunk_bounds(pos: IVec3) -> bool {
    &&& 0 <= pos.x < CHUNK_SIZE
    &&& 0 <= pos.y < CHUNK_SIZE
    &&& 0 <= pos.z < CHUNK_SIZE
}

/// The index of an in-bounds local position in a chunk's dense containers.
pub open spec fn chunk_cell_index(pos: IVec3) -> int {
    pos.x + CHUNK_SIZE * pos.y + CHUNK_SIZE * CHUNK_SIZE * pos.z
}

/// The ghost state of a chunk: one sequence per dense container, both of
/// length `CHUNK_VOLUME`, indexed by [`chunk_cell_index`].
pub ghost struct ChunkView {
    pub voxels: Seq<VoxelId>,
    pub models: Seq<Option<BlockModel>>,
}

/// A chunk's voxel data: dense containers mapping each local position to
/// a voxel id and to an optional block model.
#[derive(Clone, Debug)]
pub struct Chunk {
    voxels: Vec<VoxelId>,
    models: Vec<Option<BlockModel>>,
}

impl View for Chunk {
    type V = ChunkView;

    closed spec fn view(&self) -> ChunkView {
        ChunkView { voxels: self.voxels@, models: self.models@ }
    }
}

impl ChunkView {
    /// Both containers hold exactly one entry per cell.
    pub open spec fn wf(self) -> bool {
        &&& self.voxels.len() == CHUNK_VOLUME
        &&& self.models.len() == CHUNK_VOLUME
    }

    /// What a read of a local position returns.
    pub open spec fn spec_get(self, pos: IVec3) -> Result<
        (VoxelId, Option<BlockModel>),
        ChunkVoxelAccessError,
    > {
        if pos_in_chunk_bounds(pos) {
            Ok((self.voxels[chunk_cell_index(pos)], self.models[chunk_cell_index(pos)]))
        } else {
            Err(ChunkVoxelAccessError::OutOfBounds)
        }
    }

    /// The state after a successful write of a local position.
    pub open spec fn spec_set(self, pos: IVec3, id: VoxelId, model: Option<BlockModel>) -> ChunkView {
        ChunkView {
            voxels: self.voxels.update(chunk_cell_index(pos), id),
            models: self.models.update(chunk_cell_index(pos), model),
        }
    }
}

impl Chunk {
    /// A chunk with every cell holding voxel id 0 and no model.
    pub fn new() -> (c: Chunk)
        ensures
            c@.wf(),
            forall|pos: IVec3|
                pos_in_chunk_bounds(pos) ==> c@.spec_get(pos) == Ok::<
                    (VoxelId, Option<BlockModel>),
                    ChunkVoxelAccessError,
                >((VoxelId(0), None::<BlockModel>)),
    {
        let mut voxels: Vec<VoxelId> = Vec::new();
        let mut models: Vec<Option<BlockModel>> = Vec::new();
        let mut i: usize = 0;
        while i < CHUNK_VOLUME
            invariant
                i <= CHUNK_VOLUME,
                voxels@.len() == i,
                models@.len() == i,
                forall|j: int| 0 <= j < i ==> voxels@[j] == VoxelId(0),
                forall|j: int| 0 <= j < i ==> models@[j] is None,
            decreases CHUNK_VOLUME - i,
        {
            voxels.push(VoxelId(0));
            models.push(None);
            i += 1;
        }
        let c = Chunk { voxels, models };
        proof {
            assert forall|pos: IVec3| pos_in_chunk_bounds(pos) implies c@.spec_get(pos) == Ok::<
                (VoxelId, Option<BlockModel>),
                ChunkVoxelAccessError,
            >((VoxelId(0), None::<BlockModel>)) by {
                assert(0 <= chunk_cell_index(pos) < CHUNK_VOLUME);
            }
        }
        c
    }

    /// Reads the voxel id and model of a local position; positions
    /// outside the chunk bounds are rejected and nothing is read.
    pub fn get_raw(&self, pos: IVec3) -> (r: Result<
        (VoxelId, Option<BlockModel>),
        ChunkVoxelAccessError,
    >)
        requires
            self@.wf(),
        ensures
            r == self@.spec_get(pos),
    {
        if 0 <= pos.x && pos.x < CHUNK_SIZE && 0 <= pos.y && pos.y < CHUNK_SIZE && 0 <= pos.z
            && pos.z < CHUNK_SIZE {
            proof {
                assert(CHUNK_SIZE == 16);
            }
            let idx: usize = (pos.x + 16 * pos.y + 256 * pos.z) as usize;
            proof {
                assert(idx == chunk_cell_index(pos));
            }
            Ok((self.voxels[idx], self.models[idx]))
        } else {
            Err(ChunkVoxelAccessError::OutOfBounds)
        }
    }

    /// Writes the voxel id and model of a local position; positions
    /// outside the chunk bounds are rejected and nothing is written.
    pub fn set_raw(&mut self, pos: IVec3, id: VoxelId, model: Option<BlockModel>) -> (r: Result<
        (),
        ChunkVoxelAccessError,
    >)
        requires
            old(self)@.wf(),
        ensures
            final(self)@.wf(),
            pos_in_chunk_bounds(pos) ==> r == Ok::<(), ChunkVoxelAccessError>(())
                && final(self)@ == old(self)@.spec_set(pos, id, model),
            !pos_in_chunk_bounds(pos) ==> r == Err::<(), ChunkVoxelAccessError>(
                ChunkVoxelAccessError::OutOfBounds,
            ) && final(self)@ == old(self)@,
        no_unwind
    {
        if 0 <= pos.x && pos.x < CHUNK_SIZE && 0 <= pos.y && pos.y < CHUNK_SIZE && 0 <= pos.z
            && pos.z < CHUNK_SIZE {
            proof {
                assert(CHUNK_SIZE == 16);
            }
            let idx: usize = (pos.x + 16 * pos.y + 256 * pos.z) as usize;
            proof {
                assert(idx == chunk_cell_index(pos));
            }
            self.voxels[idx] = id;
            self.models[idx] = model;
            Ok(())
        } else {
            Err(ChunkVoxelAccessError::OutOfBounds)
        }
    }
}

/// Round trip at the storage level: after a successful write of an
/// in-bounds position, a read of the same position yields exactly the
/// written value.
pub proof fn lemma_chunk_write_then_read(
    ch: ChunkView,
    pos: IVec3,
    id: VoxelId,
    model: Option<BlockModel>,
)
    requires
        ch.wf(),
        pos_in_chunk_bounds(pos),
    ensures
        ch.spec_set(pos, id, model).wf(),
        ch.spec_set(pos, id, model).spec_get(pos) == Ok::<
            (VoxelId, Option<BlockModel>),
            ChunkVoxelAccessError,
        >((id, model)),
{
    assert(0 <= chunk_cell_index(pos) < CHUNK_VOLUME);
}

/// A write to one cell leaves every other cell unchanged.
pub proof fn lemma_chunk_write_frame(
    ch: ChunkView,
    pos: IVec3,
    other: IVec3,
    id: VoxelId,
    model: Option<BlockModel>,
)
    requires
        ch.wf(),
        pos_in_chunk_bounds(pos),
        pos_in_chunk_bounds(other),
        other != pos,
    ensures
        ch.spec_set(pos, id, model).spec_get(other) == ch.spec_get(other),
{
    assert(0 <= chunk_cell_index(pos) < CHUNK_VOLUME);
    assert(0 <= chunk_cell_index(other) < CHUNK_VOLUME);
    assert(chunk_cell_index(other) != chunk_cell_index(pos));
}

} // verus!

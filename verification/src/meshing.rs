//! Cross-chunk neighbor sampling: face-boundary voxel queries in a
//! unified 2D face-local coordinate space, translated across chunk seams
//! including the one-cell halo used for occlusion.

use vstd::prelude::*;

use crate::access::{ChunkAccess, ReadAccess};
use crate::chunk::{ChunkPos, CHUNK_SIZE};
use crate::chunk_ref::ChunkVoxelOutput;
use crate::error::{NeighborsAccessError, OutOfBounds};
use crate::math::{IVec2, IVec3};
use crate::tile::Face;

verus! {

/// The result of a neighbor boundary query.
pub type NbResult<T, E> = Result<T, NeighborsAccessError<E>>;

/// Edge length of the 3x3x3 block of neighbor slots.
pub const NEIGHBOR_GRID: usize = 3;

/// Number of neighbor slots: the 26 neighbors plus the (always empty)
/// center slot.
pub const NEIGHBOR_SLOTS: usize = 27;

/// The index of the center slot, which never holds an accessor.
pub const CENTER_SLOT: usize = 13;

/// Flattens a position in the 3x3x3 neighbor grid to a slot index.
pub fn to_1d(x: usize, y: usize, z: usize) -> (r: usize)
    requires
        x < NEIGHBOR_GRID,
        y < NEIGHBOR_GRID,
        z < NEIGHBOR_GRID,
    ensures
        r == x + 3 * y + 9 * z,
        r < NEIGHBOR_SLOTS,
{
    (z * NEIGHBOR_GRID * NEIGHBOR_GRID) + (y * NEIGHBOR_GRID) + x
}

/// The neighbor slot a chunk offset occupies, for offsets in `{-1,0,1}^3`.
pub open spec fn offset_slot(ox: int, oy: int, oz: int) -> int {
    (ox + 1) + 3 * (oy + 1) + 9 * (oz + 1)
}

/// Flattens a chunk-offset vector (shifted into `[0, 3)^3`) to a slot
/// index; `None` if any component falls outside the neighbor grid.
pub fn ivec3_to_1d(v: IVec3) -> (r: Option<usize>)
    ensures
        (0 <= v.x < 3 && 0 <= v.y < 3 && 0 <= v.z < 3) <==> r is Some,
        (r matches Some(i) ==> i == v.x + 3 * v.y + 9 * v.z && i < NEIGHBOR_SLOTS),
{
    if 0 <= v.x && v.x < 3 && 0 <= v.y && v.y < 3 && 0 <= v.z && v.z < 3 {
        Some(to_1d(v.x as usize, v.y as usize, v.z as usize))
    } else {
        None
    }
}

/// Euclidean floor division of a coordinate by the chunk edge length.
pub open spec fn chunk_floor_div(v: i32) -> int {
    (v as int) / (CHUNK_SIZE as int)
}

/// Euclidean remainder of a coordinate by the chunk edge length; always
/// in `[0, CHUNK_SIZE)`.
pub open spec fn chunk_mod(v: i32) -> int {
    (v as int) % (CHUNK_SIZE as int)
}

fn div_euclid_chunk(v: i32) -> (q: i32)
    ensures
        q as int == chunk_floor_div(v),
{
    match v.checked_div_euclid(CHUNK_SIZE) {
        Some(q) => q,
        None => {
            proof {
                assert(false);
            }
            0
        },
    }
}

fn rem_euclid_chunk(v: i32) -> (m: i32)
    ensures
        m as int == chunk_mod(v),
        0 <= m < CHUNK_SIZE,
{
    match v.checked_rem_euclid(CHUNK_SIZE) {
        Some(m) => m,
        None => {
            proof {
                assert(false);
            }
            0
        },
    }
}

/// Which chunk (in chunk-space) a chunkspace voxel position falls in:
/// componentwise Euclidean floor division by the chunk edge length.
pub fn chkspace_pos_to_chk_pos(pos: IVec3) -> (r: IVec3)
    ensures
        r.x as int == chunk_floor_div(pos.x),
        r.y as int == chunk_floor_div(pos.y),
        r.z as int == chunk_floor_div(pos.z),
{
    IVec3 { x: div_euclid_chunk(pos.x), y: div_euclid_chunk(pos.y), z: div_euclid_chunk(pos.z) }
}

/// Rebases a chunkspace voxel position onto the origin of the chunk it
/// falls in: componentwise Euclidean remainder, always in
/// `[0, CHUNK_SIZE)^3`.
pub fn place_chkspace_pos_origin_on_neighbor_origin(pos: IVec3) -> (r: IVec3)
    ensures
        r.x as int == chunk_mod(pos.x),
        r.y as int == chunk_mod(pos.y),
        r.z as int == chunk_mod(pos.z),
{
    IVec3 { x: rem_euclid_chunk(pos.x), y: rem_euclid_chunk(pos.y), z: rem_euclid_chunk(pos.z) }
}

/// The face-local halo range: the chunk edge plus one cell beyond it on
/// each side.
pub open spec fn spec_is_in_bounds(pos: IVec2) -> bool {
    &&& -1 <= pos.x < CHUNK_SIZE + 1
    &&& -1 <= pos.y < CHUNK_SIZE + 1
}

/// Whether a face-local position lies in the halo range `[-1, CHUNK_SIZE]`
/// on both axes.
pub fn is_in_bounds(pos: IVec2) -> (r: bool)
    ensures
        r == spec_is_in_bounds(pos),
{
    let min: i32 = -1;
    let max: i32 = CHUNK_SIZE + 1;
    pos.x >= min && pos.x < max && pos.y >= min && pos.y < max
}

/// Projects a 2D face-local position into 3D, placing `mag` on the
/// face's axis.
pub open spec fn spec_project_to_3d(pos: IVec2, face: Face, mag: i32) -> IVec3 {
    match face {
        Face::Top | Face::Bottom => IVec3 { x: pos.x, y: mag, z: pos.y },
        Face::North | Face::South => IVec3 { x: mag, y: pos.x, z: pos.y },
        Face::East | Face::West => IVec3 { x: pos.x, y: pos.y, z: mag },
    }
}

#[verifier::when_used_as_spec(spec_project_to_3d)]
pub fn ivec_project_to_3d(pos: IVec2, face: Face, mag: i32) -> (r: IVec3)
    ensures
        r == spec_project_to_3d(pos, face, mag),
{
    match face {
        Face::Top | Face::Bottom => IVec3 { x: pos.x, y: mag, z: pos.y },
        Face::North | Face::South => IVec3 { x: mag, y: pos.x, z: pos.y },
        Face::East | Face::West => IVec3 { x: pos.x, y: pos.y, z: mag },
    }
}

/// The magnitude used when sampling across a face: one cell beyond the
/// negative edge (`-1`) or the first cell past the positive edge
/// (`CHUNK_SIZE`).
pub open spec fn face_sample_magnitude(face: Face) -> i32 {
    if face.spec_axis_direction() == 1 {
        CHUNK_SIZE
    } else {
        -1i32
    }
}

/// The 3D chunkspace position a face-local boundary query samples.
pub open spec fn projected_sample_pos(face: Face, pos: IVec2) -> IVec3 {
    spec_project_to_3d(pos, face, face_sample_magnitude(face))
}

/// The neighbor-local position of a chunkspace position: its Euclidean
/// remainder by the chunk edge length on every axis.
pub open spec fn neighbor_local_pos(p: IVec3) -> IVec3 {
    IVec3 { x: chunk_mod(p.x) as i32, y: chunk_mod(p.y) as i32, z: chunk_mod(p.z) as i32 }
}

/// The 26 adjacent chunk accessors of one center chunk (some possibly
/// absent), plus a default sample returned for queries into absent
/// neighbors. Built once per mesh build by [`NeighborsBuilder`].
pub struct Neighbors<C: ChunkAccess> {
    pos: ChunkPos,
    chunks: Vec<Option<C>>,
    default: ChunkVoxelOutput,
}

impl<C: ChunkAccess> Neighbors<C> {
    /// There is exactly one slot per neighbor offset and the center slot
    /// is never occupied. The builder establishes this and it can never
    /// be broken afterwards.
    pub closed spec fn wf(&self) -> bool {
        &&& self.chunks@.len() == NEIGHBOR_SLOTS
        &&& self.chunks@[CENTER_SLOT as int] is None
    }

    #[verifier::type_invariant]
    spec fn type_inv(self) -> bool {
        self.wf()
    }

    /// The accessor in a neighbor slot, if the neighbor is present.
    pub closed spec fn spec_slot(&self, i: int) -> Option<C> {
        self.chunks@[i]
    }

    /// The sample returned for queries into absent neighbors.
    pub closed spec fn spec_default(&self) -> ChunkVoxelOutput {
        self.default
    }

    /// The center chunk's position.
    pub closed spec fn spec_pos(&self) -> ChunkPos {
        self.pos
    }

    /// What a raw chunkspace lookup returns: rejected if it falls in the
    /// center chunk or outside the 26 neighbors, the default sample if
    /// the neighbor slot is empty, and otherwise the neighbor's own read
    /// (whose error, if any, is wrapped).
    pub open spec fn internal_get_spec(&self, pos: IVec3) -> NbResult<
        ChunkVoxelOutput,
        C::ReadErr,
    > {
        let ox = chunk_floor_div(pos.x);
        let oy = chunk_floor_div(pos.y);
        let oz = chunk_floor_div(pos.z);
        if ox == 0 && oy == 0 && oz == 0 {
            Err(NeighborsAccessError::OutOfBounds)
        } else if 0 <= ox + 1 < 3 && 0 <= oy + 1 < 3 && 0 <= oz + 1 < 3 {
            match self.spec_slot(offset_slot(ox, oy, oz)) {
                None => Ok(self.spec_default()),
                Some(c) => match c.read_spec(neighbor_local_pos(pos)) {
                    Ok(v) => Ok(v),
                    Err(e) => Err(NeighborsAccessError::AccessError(e)),
                },
            }
        } else {
            Err(NeighborsAccessError::OutOfBounds)
        }
    }

    /// What a face-boundary query returns: out-of-halo positions are
    /// rejected, in-halo positions are projected to 3D and looked up.
    pub open spec fn get_spec(&self, face: Face, pos: IVec2) -> NbResult<
        ChunkVoxelOutput,
        C::ReadErr,
    > {
        if !spec_is_in_bounds(pos) {
            Err(NeighborsAccessError::OutOfBounds)
        } else {
            self.internal_get_spec(projected_sample_pos(face, pos))
        }
    }

    /// Raw chunkspace lookup; `pos` is relative to the center chunk's
    /// own local space.
    fn internal_get(&self, pos: IVec3) -> (r: NbResult<ChunkVoxelOutput, C::ReadErr>)
        ensures
            r == self.internal_get_spec(pos),
    {
        proof {
            use_type_invariant(&*self);
        }
        let chk_pos = chkspace_pos_to_chk_pos(pos);
        if chk_pos.x == 0 && chk_pos.y == 0 && chk_pos.z == 0 {
            return Err(NeighborsAccessError::OutOfBounds);
        }
        if chk_pos.x < -1 || chk_pos.x > 1 || chk_pos.y < -1 || chk_pos.y > 1 || chk_pos.z < -1
            || chk_pos.z > 1 {
            return Err(NeighborsAccessError::OutOfBounds);
        }
        let shifted = IVec3 { x: chk_pos.x + 1, y: chk_pos.y + 1, z: chk_pos.z + 1 };
        let chk_index = match ivec3_to_1d(shifted) {
            Some(i) => i,
            None => {
                proof {
                    assert(false);
                }
                return Err(NeighborsAccessError::OutOfBounds);
            },
        };
        match &self.chunks[chk_index] {
            Some(access) => {
                let neighbor_local = place_chkspace_pos_origin_on_neighbor_origin(pos);
                match access.get(neighbor_local) {
                    Ok(v) => Ok(v),
                    Err(e) => Err(NeighborsAccessError::AccessError(e)),
                }
            },
            None => Ok(self.default),
        }
    }

    /// Answers a face-boundary voxel query in face-local coordinates
    /// over the halo range `[-1, CHUNK_SIZE]^2`. The result is a pure
    /// function of the face, the position, the neighbor set and the
    /// default sample.
    pub fn get(&self, face: Face, pos: IVec2) -> (r: NbResult<ChunkVoxelOutput, C::ReadErr>)
        ensures
            r == self.get_spec(face, pos),
    {
        if !is_in_bounds(pos) {
            return Err(NeighborsAccessError::OutOfBounds);
        }
        let mut mag = face.axis_direction();
        if mag > 0 {
            mag = CHUNK_SIZE;
        }
        let pos_3d = ivec_project_to_3d(pos, face, mag);
        self.internal_get(pos_3d)
    }
}

/// Builds a [`Neighbors`] bundle, rejecting any attempt to register the
/// center position as a neighbor.
pub struct NeighborsBuilder<C: ChunkAccess>(Neighbors<C>);

impl<C: ChunkAccess> NeighborsBuilder<C> {
    /// The bundle as assembled so far.
    pub closed spec fn inner(&self) -> Neighbors<C> {
        self.0
    }

    pub fn new(pos: ChunkPos, default: ChunkVoxelOutput) -> (b: NeighborsBuilder<C>)
        ensures
            b.inner().wf(),
            b.inner().spec_pos() == pos,
            b.inner().spec_default() == default,
            forall|i: int| 0 <= i < NEIGHBOR_SLOTS ==> b.inner().spec_slot(i) is None,
    {
        let mut chunks: Vec<Option<C>> = Vec::new();
        let mut i: usize = 0;
        while i < NEIGHBOR_SLOTS
            invariant
                i <= NEIGHBOR_SLOTS,
                chunks@.len() == i,
                forall|j: int| 0 <= j < i ==> chunks@[j] is None,
            decreases NEIGHBOR_SLOTS - i,
        {
            chunks.push(None);
            i += 1;
        }
        NeighborsBuilder(Neighbors { pos, chunks, default })
    }

    /// Registers the accessor of the neighbor at a chunk offset. The
    /// offset must name one of the 26 neighbors: anything outside
    /// `{-1,0,1}^3`, and the center offset itself, is rejected.
    pub fn set_neighbor(&mut self, pos: IVec3, access: C) -> (r: Result<(), OutOfBounds>)
        requires
            old(self).inner().wf(),
        ensures
            final(self).inner().wf(),
            final(self).inner().spec_pos() == old(self).inner().spec_pos(),
            final(self).inner().spec_default() == old(self).inner().spec_default(),
            (-1 <= pos.x <= 1 && -1 <= pos.y <= 1 && -1 <= pos.z <= 1 && pos != (IVec3 {
                x: 0,
                y: 0,
                z: 0,
            })) <==> r == Ok::<(), OutOfBounds>(()),
            r is Ok ==> {
                &&& final(self).inner().spec_slot(offset_slot(pos.x as int, pos.y as int, pos.z as int))
                    == Some(access)
                &&& forall|i: int|
                    0 <= i < NEIGHBOR_SLOTS && i != offset_slot(
                        pos.x as int,
                        pos.y as int,
                        pos.z as int,
                    ) ==> final(self).inner().spec_slot(i) == old(self).inner().spec_slot(i)
            },
            r is Err ==> *final(self) == *old(self),
    {
        if pos.x == 0 && pos.y == 0 && pos.z == 0 {
            return Err(OutOfBounds);
        }
        if pos.x < -1 || pos.x > 1 || pos.y < -1 || pos.y > 1 || pos.z < -1 || pos.z > 1 {
            return Err(OutOfBounds);
        }
        let shifted = IVec3 { x: pos.x + 1, y: pos.y + 1, z: pos.z + 1 };
        let idx = match ivec3_to_1d(shifted) {
            Some(i) => i,
            None => {
                proof {
                    assert(false);
                }
                return Err(OutOfBounds);
            },
        };
        self.0.chunks[idx] = Some(access);
        Ok(())
    }

    pub fn build(self) -> (n: Neighbors<C>)
        ensures
            n == self.inner(),
    {
        self.0
    }
}

/// The boundary query is a pure function of the neighbor set and the
/// default sample alone: two bundles agreeing on those agree on every
/// query.
pub proof fn lemma_get_pure<C: ChunkAccess>(
    a: Neighbors<C>,
    b: Neighbors<C>,
    face: Face,
    pos: IVec2,
)
    requires
        forall|i: int| 0 <= i < NEIGHBOR_SLOTS ==> a.spec_slot(i) == b.spec_slot(i),
        a.spec_default() == b.spec_default(),
    ensures
        a.get_spec(face, pos) == b.get_spec(face, pos),
{
    let p3 = projected_sample_pos(face, pos);
    let ox = chunk_floor_div(p3.x);
    let oy = chunk_floor_div(p3.y);
    let oz = chunk_floor_div(p3.z);
    if spec_is_in_bounds(pos) && !(ox == 0 && oy == 0 && oz == 0) && 0 <= ox + 1 < 3 && 0 <= oy + 1
        < 3 && 0 <= oz + 1 < 3 {
        assert(0 <= offset_slot(ox, oy, oz) < 27);
    }
}

/// Halo boundary resolution: every query in the halo range lands in one
/// of the 26 neighbor slots — never in the center, and never out of
/// bounds — and a query outside the halo range is rejected.
pub proof fn lemma_halo_resolves<C: ChunkAccess>(n: Neighbors<C>, face: Face, pos: IVec2)
    requires
        n.wf(),
    ensures
        spec_is_in_bounds(pos) ==> {
            let p3 = projected_sample_pos(face, pos);
            let s = offset_slot(
                chunk_floor_div(p3.x),
                chunk_floor_div(p3.y),
                chunk_floor_div(p3.z),
            );
            &&& 0 <= s < NEIGHBOR_SLOTS
            &&& s != CENTER_SLOT
            &&& n.get_spec(face, pos) != Err::<ChunkVoxelOutput, NeighborsAccessError<C::ReadErr>>(
                NeighborsAccessError::OutOfBounds,
            )
            &&& (n.spec_slot(s) is None ==> n.get_spec(face, pos) == Ok::<
                ChunkVoxelOutput,
                NeighborsAccessError<C::ReadErr>,
            >(n.spec_default()))
            &&& (n.spec_slot(s) matches Some(c) ==> n.get_spec(face, pos) == (
            match c.read_spec(neighbor_local_pos(p3)) {
                Ok(v) => Ok::<ChunkVoxelOutput, NeighborsAccessError<C::ReadErr>>(v),
                Err(e) => Err(NeighborsAccessError::AccessError(e)),
            }))
        },
        !spec_is_in_bounds(pos) ==> n.get_spec(face, pos) == Err::<
            ChunkVoxelOutput,
            NeighborsAccessError<C::ReadErr>,
        >(NeighborsAccessError::OutOfBounds),
{
    if spec_is_in_bounds(pos) {
        let p3 = projected_sample_pos(face, pos);
        let ox = chunk_floor_div(p3.x);
        let oy = chunk_floor_div(p3.y);
        let oz = chunk_floor_div(p3.z);
        assert(-1 <= ox <= 1 && -1 <= oy <= 1 && -1 <= oz <= 1);
        if face.spec_axis_direction() == 1 {
            assert(face_sample_magnitude(face) == CHUNK_SIZE);
        } else {
            assert(face_sample_magnitude(face) == -1i32);
        }
        match face {
            Face::Top | Face::Bottom => assert(oy != 0),
            Face::North | Face::South => assert(ox != 0),
            Face::East | Face::West => assert(oz != 0),
        }
    }
}

/// Missing-neighbor fallback: an in-range query that projects into an
/// absent neighbor slot returns the bundle's default sample — never an
/// error.
pub proof fn lemma_missing_neighbor_default<C: ChunkAccess>(
    n: Neighbors<C>,
    face: Face,
    pos: IVec2,
)
    requires
        n.wf(),
        spec_is_in_bounds(pos),
        ({
            let p3 = projected_sample_pos(face, pos);
            n.spec_slot(
                offset_slot(chunk_floor_div(p3.x), chunk_floor_div(p3.y), chunk_floor_div(p3.z)),
            ) is None
        }),
    ensures
        n.get_spec(face, pos) == Ok::<ChunkVoxelOutput, NeighborsAccessError<C::ReadErr>>(
            n.spec_default(),
        ),
{
    lemma_halo_resolves(n, face, pos);
}

} // verus!

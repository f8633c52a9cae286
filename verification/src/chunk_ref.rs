//! Non-owning chunk handles over an indirection table with generation
//! counters: a `ChunkRef` can always be held, and every access through it
//! either reaches the still-loaded chunk or fails with `Unloaded`.
//!
//! Scoped access: read and write capabilities are handed to a
//! caller-supplied closure, so any underlying resource is released on
//! every exit path. Obtaining the write capability always marks the
//! chunk dirty, even if the closure performs no mutation.

use vstd::prelude::*;

use crate::access::{ChunkBounds, ReadAccess, WriteAccess};
use crate::chunk::{pos_in_chunk_bounds, Chunk, ChunkPos, ChunkView};
use crate::error::{ChunkRefAccessError, ChunkVoxelAccessError};
use crate::math::IVec3;
use crate::tile::VoxelId;
use crate::voxel::{BlockModel, VoxelModel};

verus! {

/// The combined value read from one cell: the voxel id and the optional
/// block model.
#[derive(Clone, Copy, PartialEq, Eq, Debug)]
pub struct ChunkVoxelOutput {
    pub id: VoxelId,
    pub model: Option<BlockModel>,
}

/// The combined value written to one cell. `model: None` clears the
/// cell's model; only the block-model variant exists today, and any
/// future variant must be rejected explicitly rather than silently
/// truncated.
#[derive(Clone, Copy, Debug)]
pub struct ChunkVoxelInput {
    pub id: VoxelId,
    pub model: Option<VoxelModel>,
}

/// What the model container stores for a written input model.
pub open spec fn stored_model(model: Option<VoxelModel>) -> Option<BlockModel> {
    match model {
        None => None,
        Some(VoxelModel::Block(m)) => Some(m),
    }
}

/// The combined output that reading a cell yields right after writing
/// the given input to it.
pub open spec fn output_of_input(input: ChunkVoxelInput) -> ChunkVoxelOutput {
    ChunkVoxelOutput { id: input.id, model: stored_model(input.model) }
}

/// What a combined read of a chunk returns for each position.
pub open spec fn chunk_output_spec(ch: ChunkView, pos: IVec3) -> Result<
    ChunkVoxelOutput,
    ChunkVoxelAccessError,
> {
    match ch.spec_get(pos) {
        Ok((id, model)) => Ok(ChunkVoxelOutput { id, model }),
        Err(e) => Err(e),
    }
}

/// The ghost state of one slot of the chunk table.
pub ghost struct SlotView {
    pub generation: u64,
    pub dirty: bool,
    pub chunk: Option<ChunkView>,
}

/// The generation a slot carries after the chunk in it is unloaded; a
/// slot whose counter would overflow is retired instead of reused.
pub open spec fn bumped_generation(g: u64) -> u64 {
    if g == u64::MAX {
        g
    } else {
        (g + 1) as u64
    }
}

/// One slot of the chunk table.
struct ChunkSlot {
    generation: u64,
    dirty: bool,
    data: Option<Chunk>,
}

impl ChunkSlot {
    spec fn slot_view(&self) -> SlotView {
        SlotView {
            generation: self.generation,
            dirty: self.dirty,
            chunk: match self.data {
                Some(c) => Some(c@),
                None => None,
            },
        }
    }
}

/// The chunk table: owns every loaded chunk, its dirty flag and a
/// generation counter per slot. Slots are reused only after their
/// generation is bumped, so stale `ChunkRef`s can never reach a chunk
/// loaded later into the same slot.
pub struct ChunkManager {
    slots: Vec<ChunkSlot>,
}

impl View for ChunkManager {
    type V = Seq<SlotView>;

    closed spec fn view(&self) -> Seq<SlotView> {
        Seq::new(self.slots@.len(), |i: int| self.slots@[i].slot_view())
    }
}

/// Whether a `ChunkRef` still reaches a loaded chunk in the given table
/// state.
pub open spec fn slot_alive(m: Seq<SlotView>, r: ChunkRef) -> bool {
    &&& (r.slot as int) < m.len()
    &&& m[r.slot as int].generation == r.generation
    &&& m[r.slot as int].chunk is Some
}

/// The chunk a live `ChunkRef` points at.
pub open spec fn slot_chunk(m: Seq<SlotView>, r: ChunkRef) -> ChunkView {
    m[r.slot as int].chunk.unwrap()
}

impl ChunkManager {
    /// Every loaded chunk is well-formed and the parallel containers
    /// agree in length (the view hides the latter).
    pub open spec fn wf(&self) -> bool {
        forall|i: int|
            0 <= i < self@.len() ==> (#[trigger] self@[i].chunk matches Some(c) ==> c.wf())
    }

    pub fn new() -> (m: ChunkManager)
        ensures
            m@.len() == 0,
            m.wf(),
    {
        ChunkManager { slots: Vec::new() }
    }

    /// The number of slots in the table (loaded or free).
    pub fn slot_count(&self) -> (n: usize)
        ensures
            n == self@.len(),
    {
        self.slots.len()
    }

    /// Loads a chunk at a chunk-space position and returns a fresh
    /// reference to it. A free slot is reused where one exists (its
    /// generation was bumped when it was freed, so stale references to
    /// it stay dead); otherwise the table grows by one slot. The new
    /// chunk starts out dirty: its geometry has never been built.
    pub fn load_chunk(&mut self, pos: ChunkPos, chunk: Chunk) -> (r: ChunkRef)
        requires
            old(self).wf(),
            chunk@.wf(),
        ensures
            final(self).wf(),
            r.pos == pos,
            slot_alive(final(self)@, r),
            slot_chunk(final(self)@, r) == chunk@,
            final(self)@[r.slot as int].dirty,
            final(self)@.len() == if r.slot as int == old(self)@.len() {
                old(self)@.len() + 1
            } else {
                old(self)@.len()
            },
            (r.slot as int) < old(self)@.len() ==> old(self)@[r.slot as int].chunk is None,
            forall|i: int|
                0 <= i < old(self)@.len() && i != r.slot as int ==> final(self)@[i] == old(
                    self,
                )@[i],
            forall|q: ChunkRef|
                slot_alive(old(self)@, q) ==> slot_alive(final(self)@, q) && slot_chunk(
                    final(self)@,
                    q,
                ) == slot_chunk(old(self)@, q),
    {
        let ghost old_view = self@;
        let ghost chunk_view = chunk@;
        match self.find_free_slot() {
            Some(i) => {
                let g = self.slots[i].generation;
                let slot = &mut self.slots[i];
                slot.data = Some(chunk);
                slot.dirty = true;
                let r = ChunkRef { slot: i, generation: g, pos };
                proof {
                    assert(self@ =~= old_view.update(
                        i as int,
                        SlotView { generation: g, dirty: true, chunk: Some(chunk_view) },
                    ));
                }
                r
            },
            None => {
                let n = self.slots.len();
                self.slots.push(ChunkSlot { generation: 0, dirty: true, data: Some(chunk) });
                let r = ChunkRef { slot: n, generation: 0, pos };
                proof {
                    assert(self@ =~= old_view.push(
                        SlotView { generation: 0, dirty: true, chunk: Some(chunk_view) },
                    ));
                }
                r
            },
        }
    }

    /// The index of a reusable slot: one with no chunk in it whose
    /// generation counter is not exhausted.
    fn find_free_slot(&self) -> (r: Option<usize>)
        ensures
            (r matches Some(i) ==> {
                &&& (i as int) < self@.len()
                &&& self@[i as int].chunk is None
                &&& self@[i as int].generation < u64::MAX
            }),
    {
        let n = self.slots.len();
        let mut i: usize = 0;
        while i < n
            invariant
                i <= n,
                n == self@.len(),
            decreases n - i,
        {
            if self.slots[i].data.is_none() && self.slots[i].generation < u64::MAX {
                return Some(i);
            }
            i += 1;
        }
        None
    }

    /// Whether the chunk a reference points at is marked dirty — that is,
    /// it may have changed since its geometry was last built. Fails with
    /// `Unloaded` if the chunk is gone.
    pub fn is_dirty(&self, r: &ChunkRef) -> (res: Result<bool, ChunkRefAccessError>)
        ensures
            res is Ok <==> slot_alive(self@, *r),
            (res matches Ok(d) ==> d == self@[r.slot as int].dirty),
            (res matches Err(e) ==> e == ChunkRefAccessError::Unloaded),
    {
        if r.is_loaded(self) {
            Ok(self.slots[r.slot].dirty)
        } else {
            Err(ChunkRefAccessError::Unloaded)
        }
    }

    /// Clears the dirty flag of the chunk a reference points at,
    /// recording that its geometry has just been rebuilt. Fails with
    /// `Unloaded` if the chunk is gone.
    pub fn clear_dirty(&mut self, r: &ChunkRef) -> (res: Result<(), ChunkRefAccessError>)
        requires
            old(self).wf(),
        ensures
            final(self).wf(),
            res is Ok <==> slot_alive(old(self)@, *r),
            !slot_alive(old(self)@, *r) ==> *final(self) == *old(self) && res == Err::<
                (),
                ChunkRefAccessError,
            >(ChunkRefAccessError::Unloaded),
            slot_alive(old(self)@, *r) ==> final(self)@ == old(self)@.update(
                r.slot as int,
                SlotView {
                    generation: r.generation,
                    dirty: false,
                    chunk: old(self)@[r.slot as int].chunk,
                },
            ),
    {
        let ghost old_view = self@;
        if !r.is_loaded(self) {
            return Err(ChunkRefAccessError::Unloaded);
        }
        let slot = &mut self.slots[r.slot];
        slot.dirty = false;
        proof {
            assert(self@ =~= old_view.update(
                r.slot as int,
                SlotView {
                    generation: r.generation,
                    dirty: false,
                    chunk: old_view[r.slot as int].chunk,
                },
            ));
        }
        Ok(())
    }

    /// Unloads the chunk a reference points at and bumps the slot's
    /// generation, so every reference to that load becomes stale. Fails
    /// with `Unloaded` if the chunk is already gone.
    pub fn unload_chunk(&mut self, r: &ChunkRef) -> (res: Result<(), ChunkRefAccessError>)
        requires
            old(self).wf(),
        ensures
            final(self).wf(),
            res is Ok <==> slot_alive(old(self)@, *r),
            !slot_alive(old(self)@, *r) ==> *final(self) == *old(self) && res == Err::<
                (),
                ChunkRefAccessError,
            >(ChunkRefAccessError::Unloaded),
            slot_alive(old(self)@, *r) ==> final(self)@ == old(self)@.update(
                r.slot as int,
                SlotView {
                    generation: bumped_generation(r.generation),
                    dirty: old(self)@[r.slot as int].dirty,
                    chunk: None,
                },
            ),
            forall|q: ChunkRef|
                slot_alive(old(self)@, q) && q.slot != r.slot ==> slot_alive(final(self)@, q)
                    && slot_chunk(final(self)@, q) == slot_chunk(old(self)@, q),
    {
        let ghost old_view = self@;
        if !r.is_loaded(self) {
            return Err(ChunkRefAccessError::Unloaded);
        }
        let g = self.slots[r.slot].generation;
        let slot = &mut self.slots[r.slot];
        slot.data = None;
        if g < u64::MAX {
            slot.generation = g + 1;
        }
        proof {
            assert(self@ =~= old_view.update(
                r.slot as int,
                SlotView {
                    generation: bumped_generation(r.generation),
                    dirty: old_view[r.slot as int].dirty,
                    chunk: None,
                },
            ));
        }
        Ok(())
    }
}

/// A non-owning reference to a chunk: the slot it was loaded into, the
/// generation of that load, and the chunk's position. It stays valid to
/// hold after the chunk is unloaded; accesses then fail with `Unloaded`.
#[derive(Clone, Copy, PartialEq, Eq, Structural, Debug, Hash)]
pub struct ChunkRef {
    pub slot: usize,
    pub generation: u64,
    pub pos: ChunkPos,
}

impl ChunkRef {
    /// The chunk-space position this reference was created for.
    pub fn pos(&self) -> (r: ChunkPos)
        ensures
            r == self.pos,
    {
        self.pos
    }

    /// Whether the chunk this reference was created for is still loaded.
    pub fn is_loaded(&self, mgr: &ChunkManager) -> (r: bool)
        ensures
            r == slot_alive(mgr@, *self),
    {
        self.slot < mgr.slots.len() && mgr.slots[self.slot].generation == self.generation
            && mgr.slots[self.slot].data.is_some()
    }

    /// Marks the chunk dirty without touching its data, recording that a
    /// mutation happened through an unrelated path; fails with `Unloaded`
    /// if the chunk is gone.
    pub fn treat_as_changed(&self, mgr: &mut ChunkManager) -> (r: Result<(), ChunkRefAccessError>)
        requires
            old(mgr).wf(),
        ensures
            final(mgr).wf(),
            r is Ok <==> slot_alive(old(mgr)@, *self),
            !slot_alive(old(mgr)@, *self) ==> *final(mgr) == *old(mgr) && r == Err::<
                (),
                ChunkRefAccessError,
            >(ChunkRefAccessError::Unloaded),
            slot_alive(old(mgr)@, *self) ==> final(mgr)@ == old(mgr)@.update(
                self.slot as int,
                SlotView {
                    generation: self.generation,
                    dirty: true,
                    chunk: old(mgr)@[self.slot as int].chunk,
                },
            ),
    {
        let ghost old_view = mgr@;
        if !self.is_loaded(mgr) {
            return Err(ChunkRefAccessError::Unloaded);
        }
        let slot = &mut mgr.slots[self.slot];
        slot.dirty = true;
        proof {
            assert(mgr@ =~= old_view.update(
                self.slot as int,
                SlotView {
                    generation: self.generation,
                    dirty: true,
                    chunk: old_view[self.slot as int].chunk,
                },
            ));
        }
        Ok(())
    }

    /// A plain scoped read capability for the chunk, borrowed from the
    /// manager; fails with `Unloaded` if the chunk is gone.
    pub fn read_access<'a>(&self, mgr: &'a ChunkManager) -> (r: Result<
        ChunkRefVxlReadAccess<'a>,
        ChunkRefAccessError,
    >)
        requires
            mgr.wf(),
        ensures
            r is Ok <==> slot_alive(mgr@, *self),
            (r matches Ok(a) ==> a@ == slot_chunk(mgr@, *self)),
            (r matches Err(e) ==> e == ChunkRefAccessError::Unloaded),
    {
        if !self.is_loaded(mgr) {
            return Err(ChunkRefAccessError::Unloaded);
        }
        match &mgr.slots[self.slot].data {
            Some(chunk) => Ok(ChunkRefVxlReadAccess { chunk }),
            None => {
                proof {
                    assert(false);
                }
                Err(ChunkRefAccessError::Unloaded)
            },
        }
    }

    /// Runs a closure with a scoped read capability for the chunk; the
    /// capability is valid only for the duration of the closure. Does
    /// not mark the chunk dirty. Fails with `Unloaded` if the chunk is
    /// gone.
    #[verifier::spinoff_prover]
    pub fn with_read_access<'a, U, F: FnOnce(ChunkRefVxlReadAccess<'a>) -> U>(
        &self,
        mgr: &'a ChunkManager,
        f: F,
    ) -> (r: Result<U, ChunkRefAccessError>)
        requires
            mgr.wf(),
            slot_alive(mgr@, *self) ==> forall|a: ChunkRefVxlReadAccess<'a>|
                a@ == slot_chunk(mgr@, *self) ==> #[trigger] call_requires(f, (a,)),
        ensures
            r is Ok <==> slot_alive(mgr@, *self),
            (r matches Ok(u) ==> exists|a: ChunkRefVxlReadAccess<'a>|
                a@ == slot_chunk(mgr@, *self) && #[trigger] call_ensures(f, (a,), u)),
            (r matches Err(e) ==> e == ChunkRefAccessError::Unloaded),
    {
        let access = self.read_access(mgr)?;
        let ghost access_snapshot = access;
        let u = f(access);
        let r = Ok::<U, ChunkRefAccessError>(u);
        proof {
            assert(access_snapshot@ == slot_chunk(mgr@, *self));
            assert(r matches Ok(uu) ==> uu == u);
            assert(exists|a: ChunkRefVxlReadAccess<'a>|
                a@ == slot_chunk(mgr@, *self) && #[trigger] call_ensures(f, (a,), u));
        }
        r
    }

    /// Runs a closure with a scoped write capability for the chunk: the
    /// closure receives the access, may read and write through it, and
    /// hands it back together with its result. Obtaining the capability
    /// always marks the chunk dirty, even if the closure writes nothing.
    /// Fails with `Unloaded`, changing nothing, if the chunk is gone.
    #[verifier::spinoff_prover]
    pub fn with_access<U, F: FnOnce(ChunkRefVxlAccess) -> (ChunkRefVxlAccess, U)>(
        &self,
        mgr: &mut ChunkManager,
        f: F,
    ) -> (r: Result<U, ChunkRefAccessError>)
        requires
            old(mgr).wf(),
            slot_alive(old(mgr)@, *self) ==> forall|a: ChunkRefVxlAccess|
                a@ == slot_chunk(old(mgr)@, *self) ==> #[trigger] call_requires(f, (a,)),
        ensures
            final(mgr).wf(),
            r is Ok <==> slot_alive(old(mgr)@, *self),
            !slot_alive(old(mgr)@, *self) ==> *final(mgr) == *old(mgr) && r == Err::<
                U,
                ChunkRefAccessError,
            >(ChunkRefAccessError::Unloaded),
            (r matches Ok(u) ==> exists|a_in: ChunkRefVxlAccess, a_out: ChunkRefVxlAccess|
                {
                    &&& a_in@ == slot_chunk(old(mgr)@, *self)
                    &&& #[trigger] call_ensures(f, (a_in,), (a_out, u))
                    &&& final(mgr)@ == old(mgr)@.update(
                        self.slot as int,
                        SlotView {
                            generation: self.generation,
                            dirty: true,
                            chunk: Some(a_out@),
                        },
                    )
                }),
    {
        let ghost old_view = mgr@;
        if !self.is_loaded(mgr) {
            return Err(ChunkRefAccessError::Unloaded);
        }
        let slot = &mut mgr.slots[self.slot];
        slot.dirty = true;
        let data = slot.data.take();
        let chunk = match data {
            Some(c) => c,
            None => {
                proof {
                    assert(false);
                }
                Chunk::new()
            },
        };
        let access = ChunkRefVxlAccess { chunk };
        let ghost access_in = access;
        let (access_out, u) = f(access);
        proof {
            use_type_invariant(&access_out);
        }
        let ghost access_out_snapshot = access_out;
        let slot_after = &mut mgr.slots[self.slot];
        slot_after.data = Some(access_out.chunk);
        proof {
            assert(mgr@ =~= old_view.update(
                self.slot as int,
                SlotView {
                    generation: self.generation,
                    dirty: true,
                    chunk: Some(access_out_snapshot@),
                },
            ));
            assert(access_in@ == slot_chunk(old_view, *self));
        }
        let r = Ok::<U, ChunkRefAccessError>(u);
        proof {
            assert(r matches Ok(uu) ==> uu == u);
            assert(exists|a_in: ChunkRefVxlAccess, a_out: ChunkRefVxlAccess|
                {
                    &&& a_in@ == slot_chunk(old_view, *self)
                    &&& #[trigger] call_ensures(f, (a_in,), (a_out, u))
                    &&& mgr@ == old_view.update(
                        self.slot as int,
                        SlotView { generation: self.generation, dirty: true, chunk: Some(a_out@) },
                    )
                });
        }
        r
    }
}

/// A scoped read capability over one chunk's containers, handed out by
/// [`ChunkRef::read_access`] and [`ChunkRef::with_read_access`].
pub struct ChunkRefVxlReadAccess<'a> {
    chunk: &'a Chunk,
}

impl<'a> View for ChunkRefVxlReadAccess<'a> {
    type V = ChunkView;

    closed spec fn view(&self) -> ChunkView {
        self.chunk@
    }
}

impl<'a> ChunkRefVxlReadAccess<'a> {
    #[verifier::type_invariant]
    spec fn wf_inv(self) -> bool {
        self.chunk@.wf()
    }
}

impl<'a> ReadAccess for ChunkRefVxlReadAccess<'a> {
    type ReadType = ChunkVoxelOutput;

    type ReadErr = ChunkVoxelAccessError;

    open spec fn read_spec(&self, pos: IVec3) -> Result<ChunkVoxelOutput, ChunkVoxelAccessError> {
        chunk_output_spec(self@, pos)
    }

    fn get(&self, pos: IVec3) -> (r: Result<ChunkVoxelOutput, ChunkVoxelAccessError>) {
        proof {
            use_type_invariant(&*self);
        }
        match self.chunk.get_raw(pos) {
            Ok((id, model)) => Ok(ChunkVoxelOutput { id, model }),
            Err(e) => Err(e),
        }
    }
}

impl<'a> ChunkBounds for ChunkRefVxlReadAccess<'a> {

}

/// A scoped combined read/write capability over one chunk's containers,
/// handed out by [`ChunkRef::with_access`]. Writes set the id container
/// and the model container of the written cell together; a write with
/// `model: None` clears the model container for that cell.
pub struct ChunkRefVxlAccess {
    chunk: Chunk,
}

impl View for ChunkRefVxlAccess {
    type V = ChunkView;

    closed spec fn view(&self) -> ChunkView {
        self.chunk@
    }
}

impl ChunkRefVxlAccess {
    #[verifier::type_invariant]
    spec fn wf_inv(self) -> bool {
        self.chunk@.wf()
    }
}

impl ReadAccess for ChunkRefVxlAccess {
    type ReadType = ChunkVoxelOutput;

    type ReadErr = ChunkVoxelAccessError;

    open spec fn read_spec(&self, pos: IVec3) -> Result<ChunkVoxelOutput, ChunkVoxelAccessError> {
        chunk_output_spec(self@, pos)
    }

    fn get(&self, pos: IVec3) -> (r: Result<ChunkVoxelOutput, ChunkVoxelAccessError>) {
        proof {
            use_type_invariant(&*self);
        }
        match self.chunk.get_raw(pos) {
            Ok((id, model)) => Ok(ChunkVoxelOutput { id, model }),
            Err(e) => Err(e),
        }
    }
}

impl WriteAccess for ChunkRefVxlAccess {
    type WriteType = ChunkVoxelInput;

    type WriteErr = ChunkVoxelAccessError;

    open spec fn write_result_spec(&self, pos: IVec3, data: ChunkVoxelInput) -> Result<
        (),
        ChunkVoxelAccessError,
    > {
        if pos_in_chunk_bounds(pos) {
            Ok(())
        } else {
            Err(ChunkVoxelAccessError::OutOfBounds)
        }
    }

    open spec fn written_view_spec(&self, pos: IVec3, data: ChunkVoxelInput) -> ChunkView {
        if pos_in_chunk_bounds(pos) {
            self@.spec_set(pos, data.id, stored_model(data.model))
        } else {
            self@
        }
    }

    fn set(&mut self, pos: IVec3, data: ChunkVoxelInput) -> (r: Result<(), ChunkVoxelAccessError>) {
        proof {
            use_type_invariant(&*self);
        }
        match data.model {
            None => self.chunk.set_raw(pos, data.id, None),
            Some(VoxelModel::Block(block_model)) => self.chunk.set_raw(
                pos,
                data.id,
                Some(block_model),
            ),
        }
    }
}

impl ChunkBounds for ChunkRefVxlAccess {

}

/// Round trip through a write session: writing an in-bounds cell and
/// reading it back yields exactly the written value, id and model alike.
pub proof fn lemma_write_then_read_output(a: ChunkView, pos: IVec3, data: ChunkVoxelInput)
    requires
        a.wf(),
        pos_in_chunk_bounds(pos),
    ensures
        chunk_output_spec(a.spec_set(pos, data.id, stored_model(data.model)), pos) == Ok::<
            ChunkVoxelOutput,
            ChunkVoxelAccessError,
        >(output_of_input(data)),
{
    crate::chunk::lemma_chunk_write_then_read(a, pos, data.id, stored_model(data.model));
}

/// Out-of-bounds reads and writes fail with `OutOfBounds` and a failed
/// write leaves every cell unchanged.
pub proof fn lemma_out_of_bounds_access(a: ChunkRefVxlAccess, pos: IVec3, data: ChunkVoxelInput)
    requires
        !pos_in_chunk_bounds(pos),
    ensures
        a.read_spec(pos) == Err::<ChunkVoxelOutput, ChunkVoxelAccessError>(
            ChunkVoxelAccessError::OutOfBounds,
        ),
        a.write_result_spec(pos, data) == Err::<(), ChunkVoxelAccessError>(
            ChunkVoxelAccessError::OutOfBounds,
        ),
        a.written_view_spec(pos, data) == a@,
{
}

} // verus!

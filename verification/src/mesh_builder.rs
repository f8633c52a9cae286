//! The meshing contract between chunk data and mesher implementations,
//! and the parallel mesh-building pipeline: task ids, build commands,
//! worker outputs and the non-blocking collection of finished meshes.

use vstd::prelude::*;

use crate::access::ChunkAccess;
use crate::channel::{
    channel_send, channel_try_recv, channel_unbounded, clone_receiver, clone_sender,
};
use crate::chunk::ChunkPos;
use crate::chunk_ref::{slot_alive, ChunkManager, ChunkRef};
use crate::error::{ChunkRefAccessError, ChunkVoxelAccessError, MesherError};
use crate::meshing::Neighbors;
use crate::pending::{lemma_ids_below_give_len, pending_ids, PendingTaskSet};
use crate::quad::PositionedQuad;
use crate::voxel::VoxelRegistry;

verus! {

/// Everything a mesher needs besides the chunk's own read access: the
/// neighbor bundle for boundary occlusion queries and the registry for
/// transparency metadata.
pub struct Context<'a, C: ChunkAccess> {
    pub neighbors: &'a Neighbors<C>,
    pub registries: &'a VoxelRegistry,
}

/// The geometry a mesher emits for one chunk: a batch of positioned,
/// textured quads.
pub struct MesherOutput {
    pub quads: Vec<PositionedQuad>,
}

/// A mesher: turns a chunk's read access plus a meshing context into a
/// geometry buffer, and describes the material its geometry needs.
pub trait Mesher {
    type Material;

    /// The material description this mesher's geometry requires.
    /// Implementations define it.
    open spec fn material_spec(&self) -> Self::Material {
        vstd::pervasive::arbitrary()
    }

    fn build<'a, A: ChunkAccess, C: ChunkAccess>(
        &self,
        access: &A,
        context: Context<'a, C>,
    ) -> Result<MesherOutput, MesherError<A::ReadErr, C::ReadErr>>;

    fn material(&self) -> (r: Self::Material)
        ensures
            r == self.material_spec(),
    ;
}

/// A small integer uniquely identifying one in-flight build request.
#[derive(Clone, Copy, PartialEq, Eq, Structural, Debug, Hash, PartialOrd, Ord)]
pub struct MeshingTaskId(pub u32);

impl MeshingTaskId {
    pub fn new(id: u32) -> (r: MeshingTaskId)
        ensures
            r == MeshingTaskId(id),
    {
        MeshingTaskId(id)
    }

    pub open spec fn spec_inner(self) -> u32 {
        self.0
    }

    #[verifier::when_used_as_spec(spec_inner)]
    pub fn inner(self) -> (r: u32)
        ensures
            r == self.0,
    {
        self.0
    }
}

/// One build request as sent to a worker: the chunk handle, the task id,
/// and the neighbor bundle, boxed because the bundle is comparatively
/// large and moves across the worker boundary.
pub struct BuildMeshCommand<C: ChunkAccess> {
    pub id: MeshingTaskId,
    pub chunk_ref: ChunkRef,
    pub neighbors: Box<Neighbors<C>>,
}

/// What a worker receives: a build request, or the order to terminate.
pub enum MesherWorkerCommand<C: ChunkAccess> {
    Build(BuildMeshCommand<C>),
    Shutdown,
}

/// What a worker sends back for one completed build.
pub struct MesherWorkerOutput {
    pub pos: ChunkPos,
    pub id: MeshingTaskId,
    pub output: MesherOutput,
}

/// A finished mesh as handed back to the caller: the chunk's position
/// and its geometry.
pub struct ChunkMesh {
    pub pos: ChunkPos,
    pub output: MesherOutput,
}

/// Why a worker could not complete a build.
#[derive(Clone, Copy, PartialEq, Eq, Debug)]
pub enum WorkerBuildError<NE> {
    /// The chunk was unloaded before or while the build ran.
    Unloaded,
    /// The meshing algorithm itself failed.
    Mesher(MesherError<ChunkVoxelAccessError, NE>),
}

/// Runs one build command against the chunk table: acquires the target
/// chunk's read access, runs the mesher with the supplied neighbor
/// bundle, and wraps the output for the result queue. This is the
/// decision half of a worker; the loop around it performs the channel
/// traffic.
pub fn process_build_command<M: Mesher, C: ChunkAccess>(
    cmd: BuildMeshCommand<C>,
    mgr: &ChunkManager,
    mesher: &M,
    registry: &VoxelRegistry,
) -> (r: Result<MesherWorkerOutput, WorkerBuildError<C::ReadErr>>)
    requires
        mgr.wf(),
    ensures
        (r matches Ok(out) ==> out.id == cmd.id && out.pos == cmd.chunk_ref.pos),
        r == Err::<MesherWorkerOutput, WorkerBuildError<C::ReadErr>>(
            WorkerBuildError::<C::ReadErr>::Unloaded,
        ) <==> !slot_alive(mgr@, cmd.chunk_ref),
{
    let BuildMeshCommand { id, chunk_ref, neighbors } = cmd;
    let neighbors_ref: &Neighbors<C> = &neighbors;
    let built = chunk_ref.with_read_access(
        mgr,
        |access| mesher.build(&access, Context { neighbors: neighbors_ref, registries: registry }),
    );
    match built {
        Err(ChunkRefAccessError::Unloaded) => Err(WorkerBuildError::Unloaded),
        Ok(Ok(output)) => Ok(MesherWorkerOutput { pos: chunk_ref.pos(), id, output }),
        Ok(Err(e)) => Err(WorkerBuildError::Mesher(e)),
    }
}

/// The task ids of a batch of worker outputs.
pub open spec fn output_ids(outs: Seq<MesherWorkerOutput>) -> Set<u32>
    decreases outs.len(),
{
    if outs.len() == 0 {
        Set::empty()
    } else {
        output_ids(outs.drop_last()).insert(outs.last().id.0)
    }
}

/// The channel endpoints a worker thread needs: the shared command queue
/// to receive build requests from, and the shared result queue to send
/// outputs to.
#[verifier::reject_recursive_types(C)]
pub struct WorkerChannels<C: ChunkAccess> {
    pub commands: crossbeam_channel::Receiver<MesherWorkerCommand<C>>,
    pub results: crossbeam_channel::Sender<MesherWorkerOutput>,
}

/// The parallel mesh builder's submission and collection side: allocates
/// task ids, records them pending, queues build commands, and drains
/// finished meshes without blocking. The worker threads themselves are
/// spawned by the host around [`WorkerChannels`]; the builder keeps one
/// handle to each queue, so the channels outlive any worker.
#[verifier::reject_recursive_types(C)]
pub struct ParallelMeshBuilder<HQM: Mesher, LQM: Mesher, C: ChunkAccess> {
    cmd_sender: crossbeam_channel::Sender<MesherWorkerCommand<C>>,
    cmd_receiver: crossbeam_channel::Receiver<MesherWorkerCommand<C>>,
    mesh_sender: crossbeam_channel::Sender<MesherWorkerOutput>,
    mesh_receiver: crossbeam_channel::Receiver<MesherWorkerOutput>,
    pending_tasks: PendingTaskSet,
    registries: VoxelRegistry,
    hq_mesher: HQM,
    lq_mesher: LQM,
    workers: usize,
}

impl<HQM: Mesher, LQM: Mesher, C: ChunkAccess> ParallelMeshBuilder<HQM, LQM, C> {
    /// The pending set only ever grows by single inserts, so it stays
    /// finite.
    #[verifier::type_invariant]
    spec fn pending_finite(self) -> bool {
        pending_ids(self.pending_tasks).finite()
    }

    /// The ids of the tasks queued or in flight whose results have not
    /// been collected yet.
    pub closed spec fn spec_pending(&self) -> Set<u32> {
        pending_ids(self.pending_tasks)
    }

    /// The number of worker threads this builder was sized for.
    pub closed spec fn spec_workers(&self) -> usize {
        self.workers
    }

    pub closed spec fn spec_hq_mesher(&self) -> HQM {
        self.hq_mesher
    }

    pub closed spec fn spec_lq_mesher(&self) -> LQM {
        self.lq_mesher
    }

    pub closed spec fn spec_registries(&self) -> VoxelRegistry {
        self.registries
    }

    /// A fresh builder with no pending tasks, sized for `workers_count`
    /// worker threads (which the host spawns around `worker_channels`).
    pub fn new(
        workers_count: usize,
        hq_mesher: HQM,
        lq_mesher: LQM,
        registries: VoxelRegistry,
    ) -> (b: ParallelMeshBuilder<HQM, LQM, C>)
        ensures
            b.spec_pending() == Set::<u32>::empty(),
            b.spec_workers() == workers_count,
            b.spec_hq_mesher() == hq_mesher,
            b.spec_lq_mesher() == lq_mesher,
            b.spec_registries() == registries,
    {
        let (cmd_sender, cmd_receiver) = channel_unbounded::<MesherWorkerCommand<C>>();
        let (mesh_sender, mesh_receiver) = channel_unbounded::<MesherWorkerOutput>();
        ParallelMeshBuilder {
            cmd_sender,
            cmd_receiver,
            mesh_sender,
            mesh_receiver,
            pending_tasks: PendingTaskSet::new(),
            registries,
            hq_mesher,
            lq_mesher,
            workers: workers_count,
        }
    }

    /// The queue endpoints one worker thread works on; call once per
    /// worker. All workers share the same two queues.
    pub fn worker_channels(&self) -> WorkerChannels<C> {
        WorkerChannels {
            commands: clone_receiver(&self.cmd_receiver),
            results: clone_sender(&self.mesh_sender),
        }
    }

    /// The number of worker threads this builder was sized for.
    pub fn workers(&self) -> (n: usize)
        ensures
            n == self.spec_workers(),
    {
        self.workers
    }

    /// The number of pending task ids.
    pub fn pending_count(&self) -> (n: usize)
        ensures
            self.spec_pending().finite(),
            n == self.spec_pending().len(),
    {
        proof {
            use_type_invariant(&*self);
        }
        self.pending_tasks.len()
    }

    /// The smallest task id not currently pending.
    fn unique_task_id(&self) -> (id: MeshingTaskId)
        requires
            self.spec_pending().len() < u32::MAX,
        ensures
            !self.spec_pending().contains(id.0),
            forall|j: u32| j < id.0 ==> self.spec_pending().contains(j),
    {
        proof {
            use_type_invariant(&*self);
        }
        let n = self.pending_tasks.len();
        let mut i: u32 = 0;
        while self.pending_tasks.contains(i)
            invariant
                self.spec_pending().finite(),
                n == self.spec_pending().len(),
                n < u32::MAX,
                i <= n,
                forall|j: u32| j < i ==> self.spec_pending().contains(j),
            decreases n - i,
        {
            i = i + 1;
            proof {
                lemma_ids_below_give_len(self.spec_pending(), i as int);
            }
        }
        MeshingTaskId(i)
    }

    /// Allocates a fresh task id — the smallest non-negative integer not
    /// currently pending — records it pending, and enqueues a build
    /// command for the chunk with its neighbor bundle. Returns the id
    /// immediately; never blocks on the build.
    pub fn queue_chunk(
        &mut self,
        chunk_ref: ChunkRef,
        neighbors: Neighbors<C>,
    ) -> (id: MeshingTaskId)
        requires
            old(self).spec_pending().len() < u32::MAX,
        ensures
            !old(self).spec_pending().contains(id.0),
            forall|j: u32| j < id.0 ==> old(self).spec_pending().contains(j),
            final(self).spec_pending() == old(self).spec_pending().insert(id.0),
            final(self).spec_workers() == old(self).spec_workers(),
            final(self).spec_hq_mesher() == old(self).spec_hq_mesher(),
            final(self).spec_lq_mesher() == old(self).spec_lq_mesher(),
            final(self).spec_registries() == old(self).spec_registries(),
    {
        proof {
            use_type_invariant(&*self);
        }
        let id = self.unique_task_id();
        self.pending_tasks.insert(id.inner());
        let build_cmd = BuildMeshCommand { id, chunk_ref, neighbors: Box::new(neighbors) };
        // The builder keeps a receiver handle of the command queue, so
        // this send cannot find the channel disconnected; if it ever did,
        // the command would be dropped and the task simply never
        // completes, like a task abandoned at shutdown.
        let _ = channel_send(&self.cmd_sender, MesherWorkerCommand::Build(build_cmd));
        id
    }

    /// Removes each of a batch of worker outputs from the pending set
    /// and repackages them as finished meshes, in order. With no outputs
    /// it returns an empty batch and changes nothing.
    pub fn collect_finished(
        &mut self,
        outputs: Vec<MesherWorkerOutput>,
    ) -> (meshes: Vec<ChunkMesh>)
        ensures
            meshes@.len() == outputs@.len(),
            forall|k: int|
                0 <= k < outputs@.len() ==> (#[trigger] meshes@[k]).pos == outputs@[k].pos
                    && meshes@[k].output == outputs@[k].output,
            final(self).spec_pending() == old(self).spec_pending().difference(
                output_ids(outputs@),
            ),
            outputs@.len() == 0 ==> final(self).spec_pending() == old(self).spec_pending(),
            final(self).spec_workers() == old(self).spec_workers(),
            final(self).spec_hq_mesher() == old(self).spec_hq_mesher(),
            final(self).spec_lq_mesher() == old(self).spec_lq_mesher(),
            final(self).spec_registries() == old(self).spec_registries(),
    {
        let ghost pending_at_start = self.spec_pending();
        let mut meshes: Vec<ChunkMesh> = Vec::new();
        let mut outputs = outputs;
        let ghost all_outputs = outputs@;
        let mut k: usize = 0;
        let n = outputs.len();
        while k < n
            invariant
                k <= n,
                n == all_outputs.len(),
                outputs@ == all_outputs.skip(k as int),
                meshes@.len() == k,
                forall|j: int|
                    0 <= j < k ==> (#[trigger] meshes@[j]).pos == all_outputs[j].pos
                        && meshes@[j].output == all_outputs[j].output,
                self.spec_pending() == pending_at_start.difference(
                    output_ids(all_outputs.take(k as int)),
                ),
                self.spec_workers() == old(self).spec_workers(),
                self.spec_hq_mesher() == old(self).spec_hq_mesher(),
                self.spec_lq_mesher() == old(self).spec_lq_mesher(),
                self.spec_registries() == old(self).spec_registries(),
            decreases n - k,
        {
            let ghost outputs_at_entry = outputs@;
            let out = outputs.remove(0);
            proof {
                assert(out == all_outputs[k as int]);
                assert(outputs@ =~= all_outputs.skip(k as int + 1));
            }
            proof {
                use_type_invariant(&*self);
            }
            self.pending_tasks.remove(out.id.inner());
            proof {
                assert(all_outputs.take(k as int + 1).drop_last() =~= all_outputs.take(k as int));
                assert(all_outputs.take(k as int + 1).last() == all_outputs[k as int]);
                assert(output_ids(all_outputs.take(k as int + 1)) == output_ids(
                    all_outputs.take(k as int),
                ).insert(out.id.0));
                assert(pending_ids(self.pending_tasks) =~= pending_at_start.difference(
                    output_ids(all_outputs.take(k as int + 1)),
                ));
            }
            meshes.push(ChunkMesh { pos: out.pos, output: out.output });
            k += 1;
        }
        proof {
            assert(all_outputs.take(n as int) =~= all_outputs);
            assert(all_outputs.len() == 0 ==> output_ids(all_outputs) =~= Set::<u32>::empty());
            assert(all_outputs.len() == 0 ==> pending_at_start.difference(output_ids(all_outputs))
                =~= pending_at_start);
        }
        meshes
    }

    /// Drains every currently available worker result without blocking,
    /// removes each from the pending set, and returns the batch. Called
    /// once per tick by the host scheduler; with no completed work it
    /// returns an empty batch and the pending set stays as it was.
    pub fn finished_meshes(&mut self) -> (meshes: Vec<ChunkMesh>)
        ensures
            exists|outs: Seq<MesherWorkerOutput>|
                {
                    &&& meshes@.len() == outs.len()
                    &&& (forall|k: int|
                        0 <= k < outs.len() ==> (#[trigger] meshes@[k]).pos == outs[k].pos
                            && meshes@[k].output == outs[k].output)
                    &&& final(self).spec_pending() == old(self).spec_pending().difference(
                        #[trigger] output_ids(outs),
                    )
                },
            forall|id: u32|
                final(self).spec_pending().contains(id) ==> old(self).spec_pending().contains(id),
            final(self).spec_workers() == old(self).spec_workers(),
            final(self).spec_hq_mesher() == old(self).spec_hq_mesher(),
            final(self).spec_lq_mesher() == old(self).spec_lq_mesher(),
            final(self).spec_registries() == old(self).spec_registries(),
    {
        let mut drained: Vec<MesherWorkerOutput> = Vec::new();
        // Each available result answers a distinct pending task, so the
        // pending count bounds how many results one drain can find.
        let cap = self.pending_tasks.len();
        let mut k: usize = 0;
        while k < cap
            invariant
                k <= cap,
            decreases cap - k,
        {
            match channel_try_recv(&self.mesh_receiver) {
                Some(out) => drained.push(out),
                None => {
                    break ;
                },
            }
            k += 1;
        }
        let ghost outs = drained@;
        let meshes = self.collect_finished(drained);
        proof {
            assert(self.spec_pending() == old(self).spec_pending().difference(output_ids(outs)));
        }
        meshes
    }

    /// Sends one shutdown command per worker and consumes the builder;
    /// the host joins the worker threads. Commands not yet picked up are
    /// abandoned; in-flight builds still finish before their worker sees
    /// the shutdown order.
    pub fn shutdown(self) {
        let mut k: usize = 0;
        let n = self.workers;
        while k < n
            decreases n - k,
        {
            let _ = channel_send(&self.cmd_sender, MesherWorkerCommand::<C>::Shutdown);
            k += 1;
        }
    }

    /// The material description of the low-quality mesher's geometry;
    /// a pure accessor.
    pub fn lq_material(&self) -> (r: LQM::Material)
        ensures
            r == self.spec_lq_mesher().material_spec(),
    {
        self.lq_mesher.material()
    }

    /// The material description of the high-quality mesher's geometry;
    /// a pure accessor.
    pub fn hq_material(&self) -> (r: HQM::Material)
        ensures
            r == self.spec_hq_mesher().material_spec(),
    {
        self.hq_mesher.material()
    }
}

/// Task id allocation never hands out an id that is still pending, and
/// as soon as an id leaves the pending set it is eligible again: the
/// smallest-unused allocation can never skip past a freed id.
pub proof fn lemma_freed_id_eligible(pending: Set<u32>, freed: u32, fresh: u32)
    requires
        !pending.contains(freed),
        !pending.contains(fresh),
        forall|j: u32| j < fresh ==> pending.contains(j),
    ensures
        fresh <= freed,
{
    if freed < fresh {
        assert(pending.contains(freed));
    }
}

} // verus!

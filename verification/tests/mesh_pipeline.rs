use voxel_engine::access::{ChunkBounds, ReadAccess};
use voxel_engine::chunk::{Chunk, ChunkPos};
use voxel_engine::chunk_ref::{ChunkManager, ChunkVoxelOutput};
use voxel_engine::error::OutOfBounds;
use voxel_engine::math::IVec3;
use voxel_engine::mesh_builder::{
    process_build_command, MesherWorkerCommand, MeshingTaskId, ParallelMeshBuilder,
    WorkerBuildError,
};
use voxel_engine::mesher::{GreedyMeshMaterial, GreedyMesher};
use voxel_engine::meshing::{Neighbors, NeighborsBuilder};
use voxel_engine::tile::{Transparency, VoxelId};
use voxel_engine::voxel::{BlockModel, FaceTexture, VoxelProperties, VoxelRegistry};

// A neighbor access whose every in-bounds cell holds the same sample.
struct ConstAccess {
    sample: ChunkVoxelOutput,
}

impl ChunkBounds for ConstAccess {}

impl ReadAccess for ConstAccess {
    type ReadErr = OutOfBounds;
    type ReadType = ChunkVoxelOutput;

    fn get(&self, pos: IVec3) -> Result<Self::ReadType, Self::ReadErr> {
        if pos.x < 0 || pos.x >= 16 || pos.y < 0 || pos.y >= 16 || pos.z < 0 || pos.z >= 16 {
            return Err(OutOfBounds);
        }
        Ok(self.sample)
    }
}

fn empty_neighbors() -> Neighbors<ConstAccess> {
    let default_sample = ChunkVoxelOutput { id: VoxelId::new(0), model: None };
    NeighborsBuilder::<ConstAccess>::new(ChunkPos::new(0, 0, 0), default_sample).build()
}

fn test_registry() -> VoxelRegistry {
    let mut registry = VoxelRegistry::new();
    registry.register(VoxelProperties { transparency: Transparency::Transparent });
    registry.register(VoxelProperties { transparency: Transparency::Opaque });
    registry
}

type TestBuilder = ParallelMeshBuilder<GreedyMesher, GreedyMesher, ConstAccess>;

// Collecting with no completed work returns an empty batch, does not
// block, and leaves the pending set untouched.
#[test]
fn test_finished_meshes_with_no_work_is_empty() {
    let registry = test_registry();
    let mut builder: TestBuilder =
        ParallelMeshBuilder::new(2, GreedyMesher::new(), GreedyMesher::new(), registry);
    assert_eq!(builder.pending_count(), 0);
    assert!(builder.finished_meshes().is_empty());
    assert_eq!(builder.pending_count(), 0);
}

// Task ids are the smallest unused non-negative integer, never one still
// pending; once a result is collected its id becomes eligible again.
#[test]
fn test_task_id_allocation_and_reuse() {
    let registry = test_registry();
    let mut mgr = ChunkManager::new();
    let mut chunk = Chunk::new();
    chunk
        .set_raw(
            voxel_engine::math::ivec3(0, 0, 0),
            VoxelId::new(1),
            Some(BlockModel::filled(FaceTexture::new(2))),
        )
        .unwrap();
    let chunk_ref = mgr.load_chunk(ChunkPos::new(0, 0, 0), chunk);

    let mut builder: TestBuilder =
        ParallelMeshBuilder::new(1, GreedyMesher::new(), GreedyMesher::new(), registry.clone());

    let id0 = builder.queue_chunk(chunk_ref, empty_neighbors());
    let id1 = builder.queue_chunk(chunk_ref, empty_neighbors());
    assert_eq!(id0, MeshingTaskId::new(0));
    assert_eq!(id1, MeshingTaskId::new(1));
    assert_eq!(builder.pending_count(), 2);

    // No worker has completed anything yet.
    assert!(builder.finished_meshes().is_empty());
    assert_eq!(builder.pending_count(), 2);

    // Play the part of one worker for the first command.
    let channels = builder.worker_channels();
    let mesher = GreedyMesher::new();
    match channels.commands.recv().unwrap() {
        MesherWorkerCommand::Build(cmd) => {
            let out = process_build_command(cmd, &mgr, &mesher, &registry).unwrap();
            assert_eq!(out.id, id0);
            assert_eq!(out.pos, ChunkPos::new(0, 0, 0));
            channels.results.send(out).unwrap();
        },
        MesherWorkerCommand::Shutdown => panic!("expected a build command"),
    }

    let meshes = builder.finished_meshes();
    assert_eq!(meshes.len(), 1);
    assert_eq!(meshes[0].pos, ChunkPos::new(0, 0, 0));
    assert_eq!(meshes[0].output.quads.len(), 6);
    assert_eq!(builder.pending_count(), 1);

    // Id 0 was collected, so it is the smallest unused id again.
    let id2 = builder.queue_chunk(chunk_ref, empty_neighbors());
    assert_eq!(id2, MeshingTaskId::new(0));
    assert_eq!(builder.pending_count(), 2);

    // Shutdown sends one termination order per worker; commands already
    // queued stay ahead of it in the queue.
    builder.shutdown();
    match channels.commands.recv().unwrap() {
        MesherWorkerCommand::Build(cmd) => assert_eq!(cmd.id, id1),
        MesherWorkerCommand::Shutdown => panic!("build commands come first"),
    }
    match channels.commands.recv().unwrap() {
        MesherWorkerCommand::Build(cmd) => assert_eq!(cmd.id, id2),
        MesherWorkerCommand::Shutdown => panic!("build commands come first"),
    }
    assert!(matches!(
        channels.commands.recv().unwrap(),
        MesherWorkerCommand::Shutdown
    ));
}

// A build against an unloaded chunk fails explicitly instead of
// producing geometry.
#[test]
fn test_build_against_unloaded_chunk_fails() {
    let registry = test_registry();
    let mut mgr = ChunkManager::new();
    let chunk_ref = mgr.load_chunk(ChunkPos::new(0, 0, 0), Chunk::new());

    let mut builder: TestBuilder =
        ParallelMeshBuilder::new(1, GreedyMesher::new(), GreedyMesher::new(), registry.clone());
    let _ = builder.queue_chunk(chunk_ref, empty_neighbors());

    mgr.unload_chunk(&chunk_ref).unwrap();

    let channels = builder.worker_channels();
    let mesher = GreedyMesher::new();
    match channels.commands.recv().unwrap() {
        MesherWorkerCommand::Build(cmd) => {
            let result = process_build_command(cmd, &mgr, &mesher, &registry);
            assert!(matches!(result, Err(WorkerBuildError::Unloaded)));
        },
        MesherWorkerCommand::Shutdown => panic!("expected a build command"),
    }
}

// The material accessors are pure and answer per mesher variant.
#[test]
fn test_material_accessors() {
    let registry = test_registry();
    let builder: TestBuilder =
        ParallelMeshBuilder::new(4, GreedyMesher::new(), GreedyMesher::new(), registry);
    assert_eq!(builder.workers(), 4);
    assert_eq!(builder.hq_material(), GreedyMeshMaterial {});
    assert_eq!(builder.lq_material(), GreedyMeshMaterial {});
}

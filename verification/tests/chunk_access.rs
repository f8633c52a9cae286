use voxel_engine::access::{HasBounds, ReadAccess, WriteAccess};
use voxel_engine::chunk::chunk_bounding_box;
use voxel_engine::chunk::{Chunk, ChunkPos};
use voxel_engine::chunk_ref::{ChunkManager, ChunkVoxelInput};
use voxel_engine::error::{ChunkRefAccessError, ChunkVoxelAccessError};
use voxel_engine::math::ivec3;
use voxel_engine::tile::VoxelId;
use voxel_engine::voxel::{BlockModel, FaceTexture, VoxelModel};

fn sample_input(id: u64) -> ChunkVoxelInput {
    ChunkVoxelInput {
        id: VoxelId::new(id),
        model: Some(VoxelModel::Block(BlockModel::filled(FaceTexture::new(4)))),
    }
}

// Round trip within one access session: writing an in-bounds cell and
// reading it back yields the written value.
#[test]
fn test_write_then_read_round_trip() {
    let mut mgr = ChunkManager::new();
    let chunk_ref = mgr.load_chunk(ChunkPos::new(0, 0, 0), Chunk::new());
    let out = chunk_ref
        .with_access(&mut mgr, |mut access| {
            access.set(ivec3(1, 2, 3), sample_input(7)).unwrap();
            let read = access.get(ivec3(1, 2, 3)).unwrap();
            (access, read)
        })
        .unwrap();
    assert_eq!(out.id.inner(), 7);
    assert_eq!(
        out.model,
        Some(BlockModel::filled(FaceTexture::new(4)))
    );

    // A write with `model: None` clears the cell's model.
    let out = chunk_ref
        .with_access(&mut mgr, |mut access| {
            access
                .set(ivec3(1, 2, 3), ChunkVoxelInput { id: VoxelId::new(9), model: None })
                .unwrap();
            let read = access.get(ivec3(1, 2, 3)).unwrap();
            (access, read)
        })
        .unwrap();
    assert_eq!(out.id.inner(), 9);
    assert_eq!(out.model, None);
}

// Positions outside [0, 16)^3 are rejected by reads and writes, and a
// rejected write mutates nothing.
#[test]
fn test_out_of_bounds_get_set() {
    let mut mgr = ChunkManager::new();
    let chunk_ref = mgr.load_chunk(ChunkPos::new(0, 0, 0), Chunk::new());
    let results = chunk_ref
        .with_access(&mut mgr, |mut access| {
            let in_bounds_before = access.get(ivec3(0, 0, 0)).unwrap();
            let bad_set = access.set(ivec3(-1, 0, 0), sample_input(3));
            let bad_set_high = access.set(ivec3(0, 16, 0), sample_input(3));
            let bad_get = access.get(ivec3(0, 0, 16));
            let in_bounds_after = access.get(ivec3(0, 0, 0)).unwrap();
            (access, (in_bounds_before, bad_set, bad_set_high, bad_get, in_bounds_after))
        })
        .unwrap();
    let (before, bad_set, bad_set_high, bad_get, after) = results;
    assert_eq!(bad_set, Err(ChunkVoxelAccessError::OutOfBounds));
    assert_eq!(bad_set_high, Err(ChunkVoxelAccessError::OutOfBounds));
    assert_eq!(bad_get, Err(ChunkVoxelAccessError::OutOfBounds));
    assert_eq!(before, after);
}

// A stale reference fails explicitly with Unloaded on every operation.
#[test]
fn test_unloaded_chunk_ref() {
    let mut mgr = ChunkManager::new();
    let chunk_ref = mgr.load_chunk(ChunkPos::new(1, 2, 3), Chunk::new());
    assert_eq!(chunk_ref.pos(), ChunkPos::new(1, 2, 3));
    assert!(chunk_ref.is_loaded(&mgr));
    assert!(chunk_ref.treat_as_changed(&mut mgr).is_ok());

    mgr.unload_chunk(&chunk_ref).unwrap();
    assert!(!chunk_ref.is_loaded(&mgr));
    assert_eq!(
        chunk_ref.treat_as_changed(&mut mgr),
        Err(ChunkRefAccessError::Unloaded)
    );
    assert!(chunk_ref.read_access(&mgr).is_err());
    assert!(chunk_ref
        .with_read_access(&mgr, |access| access.get(ivec3(0, 0, 0)))
        .is_err());
    assert!(chunk_ref
        .with_access(&mut mgr, |access| (access, ()))
        .is_err());
    assert!(mgr.unload_chunk(&chunk_ref).is_err());
}

// A slot reused for a newly loaded chunk does not resurrect stale
// references to the chunk unloaded from it.
#[test]
fn test_slot_reuse_keeps_stale_refs_dead() {
    let mut mgr = ChunkManager::new();
    let first = mgr.load_chunk(ChunkPos::new(0, 0, 0), Chunk::new());
    mgr.unload_chunk(&first).unwrap();
    let second = mgr.load_chunk(ChunkPos::new(5, 5, 5), Chunk::new());
    assert_eq!(second.slot, first.slot);
    assert!(!first.is_loaded(&mgr));
    assert!(second.is_loaded(&mgr));
}

// Reads through a read access session see what a write session stored,
// and read sessions do not require a mutable manager.
#[test]
fn test_read_access_session() {
    let mut mgr = ChunkManager::new();
    let chunk_ref = mgr.load_chunk(ChunkPos::new(0, 0, 0), Chunk::new());
    chunk_ref
        .with_access(&mut mgr, |mut access| {
            access.set(ivec3(3, 3, 3), sample_input(42)).unwrap();
            (access, ())
        })
        .unwrap();
    let id = chunk_ref
        .with_read_access(&mgr, |access| access.get(ivec3(3, 3, 3)).unwrap().id)
        .unwrap();
    assert_eq!(id.inner(), 42);
}

// The dirty flag is conservative: loading and every write capability set
// it, an explicit mark sets it, and only clearing it resets it.
#[test]
fn test_dirty_flag_lifecycle() {
    let mut mgr = ChunkManager::new();
    let chunk_ref = mgr.load_chunk(ChunkPos::new(0, 0, 0), Chunk::new());
    // A fresh chunk has never been meshed.
    assert_eq!(mgr.is_dirty(&chunk_ref), Ok(true));

    mgr.clear_dirty(&chunk_ref).unwrap();
    assert_eq!(mgr.is_dirty(&chunk_ref), Ok(false));

    // Obtaining the write capability marks dirty even without a write.
    chunk_ref.with_access(&mut mgr, |access| (access, ())).unwrap();
    assert_eq!(mgr.is_dirty(&chunk_ref), Ok(true));

    mgr.clear_dirty(&chunk_ref).unwrap();
    // A read session does not mark dirty.
    chunk_ref
        .with_read_access(&mgr, |access| access.get(ivec3(0, 0, 0)))
        .unwrap()
        .unwrap();
    assert_eq!(mgr.is_dirty(&chunk_ref), Ok(false));

    // An explicit mark records out-of-band mutations.
    chunk_ref.treat_as_changed(&mut mgr).unwrap();
    assert_eq!(mgr.is_dirty(&chunk_ref), Ok(true));

    mgr.unload_chunk(&chunk_ref).unwrap();
    assert_eq!(mgr.is_dirty(&chunk_ref), Err(ChunkRefAccessError::Unloaded));
    assert_eq!(
        mgr.clear_dirty(&chunk_ref),
        Err(ChunkRefAccessError::Unloaded)
    );
}

// Chunk-space positions map to world-space origins by the chunk edge
// length, and every access reports the fixed chunk bounds.
#[test]
fn test_bounds_and_worldspace_origin() {
    assert_eq!(
        ChunkPos::new(2, -1, 0).worldspace_origin(),
        ivec3(32, -16, 0)
    );

    let mut mgr = ChunkManager::new();
    let chunk_ref = mgr.load_chunk(ChunkPos::new(0, 0, 0), Chunk::new());
    assert_eq!(mgr.slot_count(), 1);
    let access = chunk_ref.read_access(&mgr).unwrap();
    let bounds = access.bounds();
    assert_eq!(bounds, chunk_bounding_box());
    assert!(bounds.contains(ivec3(15, 15, 15)));
    assert!(!bounds.contains(ivec3(16, 0, 0)));
    assert!(!bounds.contains(ivec3(0, -1, 0)));
}

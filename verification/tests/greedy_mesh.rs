use voxel_engine::chunk::{Chunk, ChunkPos, CHUNK_SIZE};
use voxel_engine::chunk_ref::{ChunkManager, ChunkRefVxlReadAccess, ChunkVoxelOutput};
use voxel_engine::greedy::{mesh_plane, FacePlane};
use voxel_engine::mesher::GreedyMesher;
use voxel_engine::meshing::NeighborsBuilder;
use voxel_engine::quad::Quad;
use voxel_engine::tile::{Face, Transparency, VoxelId};
use voxel_engine::voxel::{BlockModel, FaceTexture, VoxelProperties, VoxelRegistry};

const ALL_FACES: [Face; 6] = [
    Face::Top,
    Face::Bottom,
    Face::North,
    Face::East,
    Face::South,
    Face::West,
];

// A fully uniform 16x16 plane of identical visible texture merges into
// exactly one quad.
#[test]
fn test_uniform_plane_merges_into_one_quad() {
    let mut plane = FacePlane::new_empty();
    for v in 0..16 {
        for u in 0..16 {
            plane.set(u, v, Some(FaceTexture::new(1)));
        }
    }
    let quads = mesh_plane(&plane, Face::Top, 0);
    assert_eq!(quads.len(), 1);
    assert_eq!(quads[0].quad, Quad { x: 0, y: 0, width: 16, height: 16 });
    assert_eq!(quads[0].texture, FaceTexture::new(1));
}

// A checkerboard of two alternating textures produces one unit quad per
// cell.
#[test]
fn test_checkerboard_plane_produces_unit_quads() {
    let mut plane = FacePlane::new_empty();
    for v in 0..16 {
        for u in 0..16 {
            let tex = if (u + v) % 2 == 0 {
                FaceTexture::new(1)
            } else {
                FaceTexture::new(2)
            };
            plane.set(u, v, Some(tex));
        }
    }
    let quads = mesh_plane(&plane, Face::Top, 0);
    assert_eq!(quads.len(), 256);
    for q in quads.iter() {
        assert_eq!(q.quad.width, 1);
        assert_eq!(q.quad.height, 1);
    }
}

fn test_registry() -> (VoxelRegistry, VoxelId, VoxelId) {
    let mut registry = VoxelRegistry::new();
    let air = registry.register(VoxelProperties { transparency: Transparency::Transparent });
    let stone = registry.register(VoxelProperties { transparency: Transparency::Opaque });
    (registry, air, stone)
}

// A chunk holding a single voxel at local (0,0,0) with a block model
// filled with one texture, all neighbors absent and a transparent
// default sample, meshes into exactly 6 unit quads, one per cube face.
#[test]
fn test_single_voxel_meshes_into_six_unit_quads() {
    let (registry, air, stone) = test_registry();
    assert_eq!(air.inner(), 0);

    let mut chunk = Chunk::new();
    chunk
        .set_raw(
            voxel_engine::math::ivec3(0, 0, 0),
            stone,
            Some(BlockModel::filled(FaceTexture::new(5))),
        )
        .unwrap();

    let mut mgr = ChunkManager::new();
    let chunk_ref = mgr.load_chunk(ChunkPos::new(0, 0, 0), chunk);
    let access = chunk_ref.read_access(&mgr).unwrap();

    let default_sample = ChunkVoxelOutput { id: air, model: None };
    let neighbors = NeighborsBuilder::<ChunkRefVxlReadAccess>::new(
        ChunkPos::new(0, 0, 0),
        default_sample,
    )
    .build();

    let mesher = GreedyMesher::new();
    let output = mesher.build_mesh(&access, &neighbors, &registry).unwrap();

    assert_eq!(output.quads.len(), 6);
    for face in ALL_FACES {
        let of_face: Vec<_> = output.quads.iter().filter(|q| q.face == face).collect();
        assert_eq!(of_face.len(), 1);
        let q = of_face[0];
        assert_eq!(q.quad, Quad { x: 0, y: 0, width: 1, height: 1 });
        assert_eq!(q.magnitude, 0);
        assert_eq!(q.texture, FaceTexture::new(5));
    }
}

fn solid_chunk(stone: VoxelId) -> Chunk {
    let mut chunk = Chunk::new();
    for z in 0..CHUNK_SIZE {
        for y in 0..CHUNK_SIZE {
            for x in 0..CHUNK_SIZE {
                chunk
                    .set_raw(
                        voxel_engine::math::ivec3(x, y, z),
                        stone,
                        Some(BlockModel::filled(FaceTexture::new(7))),
                    )
                    .unwrap();
            }
        }
    }
    chunk
}

// Two adjacent loaded chunks, both fully solid opaque: the shared
// internal face between them appears in neither chunk's geometry, while
// each outer face of the pair still merges into one full-plane quad.
#[test]
fn test_shared_face_between_solid_chunks_is_suppressed() {
    let (registry, air, stone) = test_registry();

    let mut mgr = ChunkManager::new();
    let ref_a = mgr.load_chunk(ChunkPos::new(0, 0, 0), solid_chunk(stone));
    let ref_b = mgr.load_chunk(ChunkPos::new(1, 0, 0), solid_chunk(stone));

    let default_sample = ChunkVoxelOutput { id: air, model: None };
    let mesher = GreedyMesher::new();

    // Mesh chunk A with B registered as its +X (North) neighbor.
    let access_a = ref_a.read_access(&mgr).unwrap();
    let mut builder_a = NeighborsBuilder::<ChunkRefVxlReadAccess>::new(
        ChunkPos::new(0, 0, 0),
        default_sample,
    );
    builder_a
        .set_neighbor(
            voxel_engine::math::ivec3(1, 0, 0),
            ref_b.read_access(&mgr).unwrap(),
        )
        .unwrap();
    let neighbors_a = builder_a.build();
    let output_a = mesher.build_mesh(&access_a, &neighbors_a, &registry).unwrap();

    assert!(output_a.quads.iter().all(|q| q.face != Face::North));
    assert_eq!(output_a.quads.len(), 5);

    // Mesh chunk B with A registered as its -X (South) neighbor.
    let access_b = ref_b.read_access(&mgr).unwrap();
    let mut builder_b = NeighborsBuilder::<ChunkRefVxlReadAccess>::new(
        ChunkPos::new(1, 0, 0),
        default_sample,
    );
    builder_b
        .set_neighbor(
            voxel_engine::math::ivec3(-1, 0, 0),
            ref_a.read_access(&mgr).unwrap(),
        )
        .unwrap();
    let neighbors_b = builder_b.build();
    let output_b = mesher.build_mesh(&access_b, &neighbors_b, &registry).unwrap();

    assert!(output_b.quads.iter().all(|q| q.face != Face::South));
    assert_eq!(output_b.quads.len(), 5);
}

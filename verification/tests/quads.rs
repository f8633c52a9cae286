use voxel_engine::math::{ivec2, ivec3};
use voxel_engine::quad::{
    chunk_quads, pack_bitfield, ChunkMeshAttributes, PositionedQuad, Quad, FLIP_UV_X, FLIP_UV_Y,
    OCCLUSION, ROTATION_MASK,
};
use voxel_engine::tile::Face;
use voxel_engine::voxel::{FaceTexture, FaceTextureRotation};

#[test]
fn test_quad_from_points_and_extent() {
    let q = Quad::from_points(ivec2(3, 5), ivec2(1, 2));
    assert_eq!(q, Quad { x: 1, y: 2, width: 2, height: 3 });
    assert_eq!(q.min(), ivec2(1, 2));
    assert_eq!(q.max(), ivec2(3, 5));
    assert_eq!(q.width(), 2);
    assert_eq!(q.height(), 3);
}

#[test]
fn test_quad_grow_and_grow_until() {
    let q = Quad { x: 0, y: 0, width: 1, height: 1 };
    assert_eq!(q.widen(3).width, 4);
    assert_eq!(q.heighten(2).height, 3);
    // The predicate first accepts count 3, so three steps are taken.
    let grown = q.heighten_until(2, 10, |n| n >= 3);
    assert_eq!(grown.height, 7);
    let widened = q.widen_until(1, 4, |_n| false);
    assert_eq!(widened.width, 5);
}

#[test]
fn test_quad_positions_and_uvs() {
    let q = Quad { x: 1, y: 2, width: 2, height: 3 };
    // Positive faces sit one cell above their layer.
    let top = q.positions(Face::Top, 0);
    assert_eq!(top, [ivec3(1, 1, 5), ivec3(3, 1, 5), ivec3(1, 1, 2), ivec3(3, 1, 2)]);
    let bottom = q.positions(Face::Bottom, 0);
    assert_eq!(bottom, [ivec3(1, 0, 5), ivec3(3, 0, 5), ivec3(1, 0, 2), ivec3(3, 0, 2)]);
    let north = q.positions(Face::North, 4);
    assert_eq!(north, [ivec3(5, 1, 5), ivec3(5, 3, 5), ivec3(5, 1, 2), ivec3(5, 3, 2)]);
    assert_eq!(q.uvs(), [ivec2(0, 3), ivec2(2, 3), ivec2(0, 0), ivec2(2, 0)]);
}

#[test]
fn test_pack_bitfield() {
    assert_eq!(pack_bitfield(FaceTextureRotation::Up, false, false, false), 0);
    assert_eq!(
        pack_bitfield(FaceTextureRotation::Left, true, false, true),
        2 | FLIP_UV_X | OCCLUSION
    );
    assert_eq!(
        pack_bitfield(FaceTextureRotation::Right, true, true, false),
        3 | FLIP_UV_X | FLIP_UV_Y
    );
    assert_eq!(ROTATION_MASK, 3);
}

#[test]
fn test_add_to_mesh_winding_and_payload() {
    let tex = FaceTexture::new_rotated(9, FaceTextureRotation::Down);
    let quad = Quad { x: 0, y: 0, width: 2, height: 2 };

    // A positive face uses the upright triangle pattern, offset by the
    // base index.
    let pq = PositionedQuad { magnitude: 1, face: Face::Top, quad, texture: tex };
    let mut mesh = ChunkMeshAttributes::new();
    pq.add_to_mesh(4, &mut mesh);
    assert_eq!(mesh.indices, vec![4, 5, 6, 5, 7, 6]);
    assert_eq!(mesh.positions.len(), 4);
    assert_eq!(mesh.normals, vec![ivec3(0, 1, 0); 4]);
    assert_eq!(mesh.texture_indices, vec![9; 4]);
    // The ambient-occlusion marker bit sits on the first corner only.
    assert_eq!(mesh.bitfields[0], 1 | OCCLUSION);
    assert_eq!(mesh.bitfields[1], 1);
    assert_eq!(mesh.bitfields[2], 1);
    assert_eq!(mesh.bitfields[3], 1);

    // A negative face uses the mirrored pattern.
    let pq = PositionedQuad { magnitude: 1, face: Face::West, quad, texture: tex };
    let mut mesh = ChunkMeshAttributes::new();
    pq.add_to_mesh(0, &mut mesh);
    assert_eq!(mesh.indices, vec![0, 2, 1, 1, 2, 3]);
}

#[test]
fn test_gpu_quad_conversion() {
    let tex = FaceTexture::new(3);
    let pq = PositionedQuad {
        magnitude: 2,
        face: Face::Top,
        quad: Quad { x: 0, y: 0, width: 16, height: 16 },
        texture: tex,
    };
    let gpu = pq.gpu_quad();
    assert_eq!(gpu.texture_id, 3);
    assert_eq!(gpu.rotation, 0);
    assert_eq!(gpu.min, ivec3(0, 3, 0));
    assert_eq!(gpu.max, ivec3(16, 3, 16));

    let batch = chunk_quads(&vec![pq]);
    assert_eq!(batch.quads.len(), 1);
    assert_eq!(batch.quads[0], gpu);
}
